//! The broadcast hub, and the decisions of a live connection.

use crate::events::{update_event_json, UpdateEvent};
use std::sync::atomic::AtomicUsize;
use std::sync::atomic::Ordering;
use std::sync::Arc;
use tokio::sync::broadcast::Receiver;
use tokio::sync::broadcast::Sender;
use vstd::prelude::*;

verus! {

/// The sending half of a `tokio` broadcast channel. Nothing is known of a
/// value of it.
#[verifier::external_type_specification]
#[verifier::external_body]
#[verifier::reject_recursive_types(T)]
pub struct ExSender<T>(Sender<T>);

/// A receiving half of a `tokio` broadcast channel. Nothing is known of a
/// value of it.
#[verifier::external_type_specification]
#[verifier::external_body]
#[verifier::reject_recursive_types(T)]
pub struct ExReceiver<T>(Receiver<T>);

/// `Sender::clone`: another handle on the same channel.
pub assume_specification<T>[ <Sender<T> as Clone>::clone ](tx: &Sender<T>) -> (other: Sender<T>)
;

/// The number of events that the hub keeps, at the least, for a subscriber
/// that lags; older ones are lost to it.
pub const CHANNEL_CAPACITY: usize = 100;

/// The hub: one broadcast channel that fans events out to the connections
/// that are attached, and a count of those connections.
#[derive(Clone)]
pub struct ConnectionManager {
    pub broadcast_tx: Sender<UpdateEvent>,
    pub connection_count: Arc<AtomicUsize>,
}

/// `tokio::sync::broadcast::channel`, of which the sending half is kept. It
/// panics on a capacity of zero or above half of `usize::MAX`, which the
/// precondition leaves out.
#[verifier::external_body]
fn open_channel(capacity: usize) -> (tx: Sender<UpdateEvent>)
    requires
        0 < capacity <= usize::MAX / 2,
{
    tokio::sync::broadcast::channel(capacity).0
}

/// `Sender::send`: the number of receivers that the event was queued for,
/// which is not zero, or nothing where no receiver is subscribed.
#[verifier::external_body]
fn broadcast(tx: &Sender<UpdateEvent>, event: UpdateEvent) -> (receivers: Option<usize>)
    ensures
        receivers matches Some(n) ==> n > 0,
{
    tx.send(event).ok()
}

/// `Sender::subscribe`: a receiver of the events that are sent from now on.
#[verifier::external_body]
fn new_receiver(tx: &Sender<UpdateEvent>) -> (rx: Receiver<UpdateEvent>) {
    tx.subscribe()
}

/// The number of receivers that a publication reached: none where the event
/// was dropped for want of subscribers.
pub fn receivers_reached(outcome: Option<usize>) -> (reached: usize)
    ensures
        reached == match outcome {
            Some(n) => n,
            None => 0,
        },
{
    match outcome {
        Some(n) => n,
        None => 0,
    }
}

impl ConnectionManager {
    /// A hub without connections.
    pub fn new() -> (hub: ConnectionManager) {
        ConnectionManager {
            broadcast_tx: open_channel(CHANNEL_CAPACITY),
            connection_count: Arc::new(AtomicUsize::new(0)),
        }
    }

    /// Publishes an event to every connection that is attached, and returns
    /// the number of receivers that it was queued for. Without subscribers
    /// the event is dropped and the number is zero; that is no error.
    pub fn send_update(&self, event: UpdateEvent) -> (reached: usize) {
        receivers_reached(broadcast(&self.broadcast_tx, event))
    }

    /// A receiver of the events that are published from now on.
    pub fn subscribe(&self) -> (rx: Receiver<UpdateEvent>) {
        new_receiver(&self.broadcast_tx)
    }

    /// Counts a connection that attaches, and returns the count before it.
    pub fn increment_connections(&self) -> (before: usize) {
        self.connection_count.fetch_add(1, Ordering::SeqCst)
    }

    /// Counts a connection that detaches, and returns the count before it.
    pub fn decrement_connections(&self) -> (before: usize) {
        self.connection_count.fetch_sub(1, Ordering::SeqCst)
    }

    /// The number of connections that are attached.
    pub fn get_connection_count(&self) -> (count: usize) {
        self.connection_count.load(Ordering::SeqCst)
    }
}

/// A frame from the peer, as far as a connection reads it.
#[derive(Debug, Clone, Copy, PartialEq, Eq)]
pub enum ClientFrame {
    Text,
    Binary,
    Ping,
    Pong,
    Close,
}

/// What a connection has waited for: on its inbound side a frame from the
/// peer, a failure to read one, or the end of the stream; on its outbound
/// side an event from the hub, the end of its subscription (the hub is
/// closed, or the connection lagged behind it), or a failure to push a frame
/// to the peer.
#[derive(Debug, Clone, PartialEq, Eq)]
pub enum SocketEvent {
    Frame(ClientFrame),
    ReceiveFailed,
    StreamEnded,
    Update(UpdateEvent),
    SubscriptionEnded,
    SendFailed,
}

/// What a connection does next: go on waiting, push a text frame to the
/// peer, or close.
#[derive(Debug, Clone, PartialEq, Eq)]
pub enum SocketAction {
    Continue,
    Send(String),
    Close,
}

/// The mathematical value of a [`SocketAction`].
pub enum SocketActionView {
    Continue,
    Send(Seq<char>),
    Close,
}

impl View for SocketAction {
    type V = SocketActionView;

    open spec fn view(&self) -> SocketActionView {
        match self {
            SocketAction::Continue => SocketActionView::Continue,
            SocketAction::Send(text) => SocketActionView::Send(text@),
            SocketAction::Close => SocketActionView::Close,
        }
    }
}

/// What the inbound side does with a frame: a close frame ends the
/// connection, and every other frame is passed over.
pub open spec fn frame_action(frame: ClientFrame) -> SocketActionView {
    if frame is Close {
        SocketActionView::Close
    } else {
        SocketActionView::Continue
    }
}

/// What the outbound side does with an event, given the JSON that was made
/// of it, if any was: it pushes the JSON, and passes over an event of which
/// none could be made.
pub open spec fn update_action(serialized: Option<Seq<char>>) -> SocketActionView {
    match serialized {
        Some(json) => SocketActionView::Send(json),
        None => SocketActionView::Continue,
    }
}

/// What the inbound side does with a frame.
pub fn inbound_action(frame: ClientFrame) -> (action: SocketAction)
    ensures
        action@ == frame_action(frame),
{
    match frame {
        ClientFrame::Close => SocketAction::Close,
        _ => SocketAction::Continue,
    }
}

/// What the outbound side does with an event, given the outcome of writing
/// it as JSON.
pub fn outbound_action(serialized: Result<String, serde_json::Error>) -> (action: SocketAction)
    ensures
        action@ == update_action(
            match serialized {
                Ok(json) => Some(json@),
                Err(_) => None,
            },
        ),
{
    match serialized {
        Ok(json) => SocketAction::Send(json),
        Err(_) => SocketAction::Continue,
    }
}

/// One step of a connection: what it does about what it has waited for.
/// Frames from the peer are passed over, but for a close frame. An event
/// from the hub is pushed as JSON. The connection closes on a close frame,
/// and as soon as either side fails or ends.
pub fn handle_socket(event: SocketEvent) -> (action: SocketAction)
    ensures
        match event {
            SocketEvent::Frame(frame) => action@ == frame_action(frame),
            SocketEvent::Update(update) => action@ == update_action(
                Some(update_event_json(update@)),
            ),
            SocketEvent::ReceiveFailed => action is Close,
            SocketEvent::StreamEnded => action is Close,
            SocketEvent::SubscriptionEnded => action is Close,
            SocketEvent::SendFailed => action is Close,
        },
{
    match event {
        SocketEvent::Frame(frame) => inbound_action(frame),
        SocketEvent::Update(update) => outbound_action(update.to_json()),
        SocketEvent::ReceiveFailed => SocketAction::Close,
        SocketEvent::StreamEnded => SocketAction::Close,
        SocketEvent::SubscriptionEnded => SocketAction::Close,
        SocketEvent::SendFailed => SocketAction::Close,
    }
}

} // verus!
