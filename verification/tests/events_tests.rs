use markdawn::events::{
    frame_content_update, frame_error, frame_file_deleted, FileEvent, UpdateEvent,
};

#[test]
fn content_update_json() {
    let event = UpdateEvent::ContentUpdate {
        file_path: "notes/a.md".to_string(),
        html: "<p>hi</p>".to_string(),
    };
    assert_eq!(
        event.to_json().unwrap(),
        "{\"ContentUpdate\":{\"file_path\":\"notes/a.md\",\"html\":\"<p>hi</p>\"}}"
    );
}

#[test]
fn file_deleted_json() {
    let event = UpdateEvent::FileDeleted { file_path: "a.md".to_string() };
    assert_eq!(event.to_json().unwrap(), "{\"FileDeleted\":{\"file_path\":\"a.md\"}}");
}

#[test]
fn error_json() {
    let event = UpdateEvent::Error { message: "Failed to read file a.md: gone".to_string() };
    assert_eq!(
        event.to_json().unwrap(),
        "{\"Error\":{\"message\":\"Failed to read file a.md: gone\"}}"
    );
}

#[test]
fn json_text_is_quoted_and_escaped() {
    let event = UpdateEvent::Error { message: "say \"hi\"\n\\ \u{1} é".to_string() };
    assert_eq!(
        event.to_json().unwrap(),
        "{\"Error\":{\"message\":\"say \\\"hi\\\"\\n\\\\ \\u0001 é\"}}"
    );
}

#[test]
fn json_is_read_back_by_serde_json() {
    let event = UpdateEvent::ContentUpdate {
        file_path: "dir/\"odd\".md".to_string(),
        html: "<p class=\"x\">a\tb</p>\n".to_string(),
    };
    let value: serde_json::Value = serde_json::from_str(&event.to_json().unwrap()).unwrap();
    let object = value.as_object().unwrap();
    assert_eq!(object.len(), 1);
    let fields = object["ContentUpdate"].as_object().unwrap();
    assert_eq!(fields.len(), 2);
    assert_eq!(fields["file_path"].as_str().unwrap(), "dir/\"odd\".md");
    assert_eq!(fields["html"].as_str().unwrap(), "<p class=\"x\">a\tb</p>\n");
}

#[test]
fn frames_take_json_fields() {
    assert_eq!(
        frame_content_update("\"p\"", "\"h\""),
        "{\"ContentUpdate\":{\"file_path\":\"p\",\"html\":\"h\"}}"
    );
    assert_eq!(frame_file_deleted("\"p\""), "{\"FileDeleted\":{\"file_path\":\"p\"}}");
    assert_eq!(frame_error("\"m\""), "{\"Error\":{\"message\":\"m\"}}");
}

#[test]
fn file_events_carry_the_path() {
    let created = FileEvent::Created("a.md".to_string());
    assert_eq!(created.clone(), created);
    assert_ne!(created, FileEvent::Modified("a.md".to_string()));
    assert_ne!(FileEvent::Deleted("a.md".to_string()), FileEvent::Deleted("b.md".to_string()));
}
