use markdawn::events::UpdateEvent;
use markdawn::websocket::{
    handle_socket, inbound_action, outbound_action, receivers_reached, ClientFrame,
    ConnectionManager, SocketAction, SocketEvent, CHANNEL_CAPACITY,
};
use tokio::sync::broadcast::error::TryRecvError;

fn error(message: &str) -> UpdateEvent {
    UpdateEvent::Error { message: message.to_string() }
}

#[test]
fn publish_without_subscribers_is_dropped() {
    let hub = ConnectionManager::new();
    assert_eq!(hub.send_update(error("nobody listens")), 0);
    assert_eq!(hub.send_update(error("still nobody")), 0);
    assert_eq!(hub.get_connection_count(), 0);
}

#[test]
fn many_publishes_without_subscribers_do_not_block() {
    let hub = ConnectionManager::new();
    for i in 0..(3 * CHANNEL_CAPACITY) {
        assert_eq!(hub.send_update(error(&format!("event {}", i))), 0);
    }
}

#[test]
fn subscribers_receive_what_is_published() {
    let hub = ConnectionManager::new();
    let mut first = hub.subscribe();
    let mut second = hub.subscribe();
    assert_eq!(hub.send_update(error("one")), 2);
    assert_eq!(hub.send_update(error("two")), 2);
    assert_eq!(first.try_recv(), Ok(error("one")));
    assert_eq!(first.try_recv(), Ok(error("two")));
    assert_eq!(first.try_recv(), Err(TryRecvError::Empty));
    assert_eq!(second.try_recv(), Ok(error("one")));
    assert_eq!(second.try_recv(), Ok(error("two")));
}

#[test]
fn no_history_is_replayed() {
    let hub = ConnectionManager::new();
    let mut early = hub.subscribe();
    hub.send_update(error("before"));
    let mut late = hub.subscribe();
    hub.send_update(error("after"));
    assert_eq!(early.try_recv(), Ok(error("before")));
    assert_eq!(early.try_recv(), Ok(error("after")));
    assert_eq!(late.try_recv(), Ok(error("after")));
    assert_eq!(late.try_recv(), Err(TryRecvError::Empty));
}

#[test]
fn lagging_subscriber_loses_the_oldest() {
    let hub = ConnectionManager::new();
    let mut rx = hub.subscribe();
    for i in 0..CHANNEL_CAPACITY {
        assert_eq!(hub.send_update(error(&format!("{}", i))), 1);
    }
    assert_eq!(rx.try_recv(), Ok(error("0")));
    for i in 0..(4 * CHANNEL_CAPACITY) {
        assert_eq!(hub.send_update(error(&format!("more {}", i))), 1);
    }
    assert!(matches!(rx.try_recv(), Err(TryRecvError::Lagged(_))));
    assert!(rx.try_recv().is_ok());
}

#[test]
fn dropped_subscriber_is_not_reached() {
    let hub = ConnectionManager::new();
    let rx = hub.subscribe();
    assert_eq!(hub.send_update(error("a")), 1);
    drop(rx);
    assert_eq!(hub.send_update(error("b")), 0);
}

#[test]
fn clones_share_the_hub() {
    let hub = ConnectionManager::new();
    let other = hub.clone();
    let mut rx = hub.subscribe();
    assert_eq!(other.send_update(error("x")), 1);
    assert_eq!(rx.try_recv(), Ok(error("x")));
    other.increment_connections();
    assert_eq!(hub.get_connection_count(), 1);
}

#[test]
fn connections_are_counted() {
    let hub = ConnectionManager::new();
    assert_eq!(hub.get_connection_count(), 0);
    assert_eq!(hub.increment_connections(), 0);
    assert_eq!(hub.increment_connections(), 1);
    assert_eq!(hub.get_connection_count(), 2);
    assert_eq!(hub.decrement_connections(), 2);
    assert_eq!(hub.get_connection_count(), 1);
    assert_eq!(hub.decrement_connections(), 1);
    assert_eq!(hub.get_connection_count(), 0);
}

#[test]
fn receivers_reached_counts() {
    assert_eq!(receivers_reached(Some(3)), 3);
    assert_eq!(receivers_reached(None), 0);
}

#[test]
fn frames_are_passed_over_but_close() {
    assert_eq!(inbound_action(ClientFrame::Text), SocketAction::Continue);
    assert_eq!(inbound_action(ClientFrame::Binary), SocketAction::Continue);
    assert_eq!(inbound_action(ClientFrame::Ping), SocketAction::Continue);
    assert_eq!(inbound_action(ClientFrame::Pong), SocketAction::Continue);
    assert_eq!(inbound_action(ClientFrame::Close), SocketAction::Close);
    assert_eq!(handle_socket(SocketEvent::Frame(ClientFrame::Text)), SocketAction::Continue);
    assert_eq!(handle_socket(SocketEvent::Frame(ClientFrame::Close)), SocketAction::Close);
}

#[test]
fn either_side_ending_closes() {
    assert_eq!(handle_socket(SocketEvent::ReceiveFailed), SocketAction::Close);
    assert_eq!(handle_socket(SocketEvent::StreamEnded), SocketAction::Close);
    assert_eq!(handle_socket(SocketEvent::SubscriptionEnded), SocketAction::Close);
    assert_eq!(handle_socket(SocketEvent::SendFailed), SocketAction::Close);
}

#[test]
fn updates_are_pushed_as_json() {
    let update = UpdateEvent::FileDeleted { file_path: "a.md".to_string() };
    assert_eq!(
        handle_socket(SocketEvent::Update(update)),
        SocketAction::Send("{\"FileDeleted\":{\"file_path\":\"a.md\"}}".to_string())
    );
}

#[test]
fn update_without_json_is_passed_over() {
    let failure = serde_json::from_str::<serde_json::Value>("{").unwrap_err();
    assert_eq!(outbound_action(Err(failure)), SocketAction::Continue);
    assert_eq!(outbound_action(Ok("{}".to_string())), SocketAction::Send("{}".to_string()));
}
