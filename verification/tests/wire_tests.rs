use rusty_chat::message::{ChatMessage, MessageType};
use rusty_chat::wire::{chat_wire_line, parse_wire_line, system_wire_line, user_list_wire_line,
    WireEvent};

/// A chat message with a chosen timestamp, for checking the wire format.
fn chat_at(timestamp: u64, sender: &str, content: &str) -> ChatMessage {
    let mut msg = ChatMessage::new(
        content.to_string(),
        1,
        sender.to_string(),
        "general".to_string(),
    );
    msg.timestamp = timestamp;
    msg
}

#[test]
fn wire_timestamps_render_known_values() {
    let line = chat_wire_line(&chat_at(0, "alice", "hi"));
    assert_eq!(line.split('|').nth(1), Some("1970-01-01 00:00:00"));
    let line = chat_wire_line(&chat_at(2, "alice", "hi"));
    assert_eq!(line.split('|').nth(1), Some("1970-01-01 00:00:02"));
    let line = chat_wire_line(&chat_at(86400 + 3661, "alice", "hi"));
    assert_eq!(line.split('|').nth(1), Some("1970-01-02 01:01:01"));
}

#[test]
fn chat_round_trip_keeps_sender_color_content_and_timestamp_text() {
    let msg = ChatMessage::new(
        "hi | there".to_string(),
        1,
        "alice".to_string(),
        "general".to_string(),
    );
    let line = chat_wire_line(&msg);
    let timestamp_on_wire = line.split('|').nth(1).unwrap().to_string();
    match parse_wire_line(&line) {
        Some(WireEvent::Chat { timestamp_text, sender, color, content }) => {
            assert_eq!(sender, msg.sender_name);
            assert_eq!(color, msg.color);
            assert_eq!(content, msg.content);
            assert_eq!(timestamp_text, timestamp_on_wire);
        },
        other => panic!("expected a chat event, got {:?}", other),
    }
    assert_eq!(msg.message_type, MessageType::Chat);
}

#[test]
fn chat_wire_line_has_the_documented_shape() {
    let msg = ChatMessage::new("hello".to_string(), 3, "bob".to_string(), "general".to_string());
    let line = chat_wire_line(&msg);
    assert!(line.starts_with("CHAT|"));
    let parts: Vec<&str> = line.splitn(5, '|').collect();
    assert_eq!(parts.len(), 5);
    assert_eq!(parts[2], "bob");
    assert_eq!(parts[4], "hello");
    assert_eq!(parts[1].len(), 19);
}

#[test]
fn system_and_user_list_lines_round_trip() {
    let line = system_wire_line("maintenance at noon");
    assert_eq!(line, "SYSTEM|maintenance at noon");
    match parse_wire_line(&line) {
        Some(WireEvent::System { content }) => assert_eq!(content, "maintenance at noon"),
        other => panic!("expected a system event, got {:?}", other),
    }
    let line = user_list_wire_line("alice,bob");
    assert_eq!(line, "USER_LIST|alice,bob");
    match parse_wire_line(&line) {
        Some(WireEvent::UserList { names }) => assert_eq!(names, "alice,bob"),
        other => panic!("expected a user list event, got {:?}", other),
    }
}

#[test]
fn incomplete_chat_lines_parse_to_nothing() {
    assert!(parse_wire_line("CHAT|only|two").is_none());
    assert!(parse_wire_line("CHAT|nopipes").is_none());
    assert!(parse_wire_line("NOISE|x").is_none());
    assert!(parse_wire_line("").is_none());
}
