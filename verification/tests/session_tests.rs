use rusty_chat::client_registry::ClientManager;
use rusty_chat::message::{ChatMessage, MessageType};
use rusty_chat::room_registry::RoomManager;
use rusty_chat::session::{
    handle_input_line,
    registration_step,
    session_cleanup,
    should_deliver,
    user_list_message,
    RegistrationOutcome,
    SessionAction,
};

#[test]
fn registration_accepts_a_fresh_name() {
    let mut cm = ClientManager::new();
    let mut rm = RoomManager::new();
    let r = registration_step(&mut cm, &mut rm, 1, 1, "alice\n");
    assert!(matches!(r, RegistrationOutcome::Accepted(n) if n == "alice"));
    assert!(!cm.is_name_available("alice"));
    assert_eq!(rm.get_room_members("general"), vec![1]);
}

#[test]
fn registration_defaults_to_the_anonymous_name() {
    let mut cm = ClientManager::new();
    let mut rm = RoomManager::new();
    let r = registration_step(&mut cm, &mut rm, 1, 7, "   \n");
    assert!(matches!(r, RegistrationOutcome::Accepted(n) if n == "Anonymous#7"));
}

#[test]
fn registration_rejects_bad_lengths_and_taken_names() {
    let mut cm = ClientManager::new();
    let mut rm = RoomManager::new();
    assert!(matches!(
        registration_step(&mut cm, &mut rm, 1, 1, "a"),
        RegistrationOutcome::InvalidLength
    ));
    assert!(matches!(
        registration_step(&mut cm, &mut rm, 1, 1, "abcdefghijklmnopqrstu"),
        RegistrationOutcome::InvalidLength
    ));
    registration_step(&mut cm, &mut rm, 1, 1, "alice");
    assert!(matches!(
        registration_step(&mut cm, &mut rm, 2, 2, "alice"),
        RegistrationOutcome::NameTaken
    ));
}

#[test]
fn chat_is_delivered_only_within_the_room_and_never_echoed() {
    let msg = ChatMessage::new("hi".to_string(), 1, "alice".to_string(), "general".to_string());
    assert!(should_deliver(&msg, 2, &Some("general".to_string())));
    assert!(!should_deliver(&msg, 2, &Some("den".to_string())));
    assert!(!should_deliver(&msg, 2, &None));
    assert!(!should_deliver(&msg, 1, &Some("general".to_string())));
}

#[test]
fn whispers_reach_only_their_target() {
    let msg = ChatMessage::whisper("psst".to_string(), 1, "alice".to_string(), 2);
    assert!(should_deliver(&msg, 2, &None));
    assert!(!should_deliver(&msg, 3, &Some("general".to_string())));
    assert!(!should_deliver(&msg, 1, &None));
}

#[test]
fn system_messages_reach_everyone() {
    let msg = ChatMessage::system("notice".to_string(), "general".to_string());
    assert!(should_deliver(&msg, 1, &Some("general".to_string())));
    assert!(should_deliver(&msg, 2, &Some("den".to_string())));
    assert!(should_deliver(&msg, 3, &None));
}

#[test]
fn two_clients_in_general_see_each_other() {
    let mut cm = ClientManager::new();
    let mut rm = RoomManager::new();
    registration_step(&mut cm, &mut rm, 1, 1, "alice");
    registration_step(&mut cm, &mut rm, 2, 2, "bob");

    let actions = handle_input_line("hi", 1, &mut cm, &mut rm);
    assert_eq!(actions.len(), 2);
    assert!(matches!(&actions[0], SessionAction::WriteLine(l) if l.contains("You: hi")));
    let published = match &actions[1] {
        SessionAction::Publish(m) => m.clone(),
        other => panic!("expected a publish action, got {:?}", other),
    };
    assert_eq!(published.sender_name, "alice");
    assert_eq!(published.content, "hi");
    assert_eq!(published.room, "general");
    assert_eq!(published.message_type, MessageType::Chat);

    let bob_room = rm.get_user_room(2);
    assert!(should_deliver(&published, 2, &bob_room));
    let alice_room = rm.get_user_room(1);
    assert!(!should_deliver(&published, 1, &alice_room));
}

#[test]
fn blank_lines_and_unregistered_senders_do_nothing() {
    let mut cm = ClientManager::new();
    let mut rm = RoomManager::new();
    assert!(handle_input_line("   ", 1, &mut cm, &mut rm).is_empty());
    assert!(handle_input_line("hello", 99, &mut cm, &mut rm).is_empty());
}

#[test]
fn quit_command_disconnects() {
    let mut cm = ClientManager::new();
    let mut rm = RoomManager::new();
    let actions = handle_input_line("/quit", 1, &mut cm, &mut rm);
    assert_eq!(actions.len(), 1);
    assert!(matches!(actions[0], SessionAction::Disconnect));
}

#[test]
fn commands_answer_on_the_sessions_socket() {
    let mut cm = ClientManager::new();
    let mut rm = RoomManager::new();
    registration_step(&mut cm, &mut rm, 1, 1, "alice");
    let actions = handle_input_line("/rooms", 1, &mut cm, &mut rm);
    assert_eq!(actions.len(), 1);
    assert!(matches!(&actions[0], SessionAction::WriteLine(l) if l.contains("Available rooms:")));

    registration_step(&mut cm, &mut rm, 2, 2, "bob");
    let actions = handle_input_line("/w bob psst", 1, &mut cm, &mut rm);
    assert_eq!(actions.len(), 2);
    assert!(matches!(&actions[0], SessionAction::Publish(m) if m.message_type == MessageType::Whisper));
    assert!(matches!(&actions[1], SessionAction::WriteLine(l) if l.contains("Whisper sent")));
}

#[test]
fn user_list_message_joins_the_names() {
    let mut cm = ClientManager::new();
    let mut rm = RoomManager::new();
    registration_step(&mut cm, &mut rm, 1, 1, "alice");
    registration_step(&mut cm, &mut rm, 2, 2, "bob");
    let msg = user_list_message(&rm, &cm, "general");
    assert_eq!(msg.message_type, MessageType::UserList);
    assert_eq!(msg.room, "general");
    assert_eq!(msg.content, "alice,bob");
}

#[test]
fn cleanup_removes_the_client_and_names_its_room() {
    let mut cm = ClientManager::new();
    let mut rm = RoomManager::new();
    registration_step(&mut cm, &mut rm, 1, 1, "alice");
    let left = session_cleanup(&mut cm, &mut rm, 1);
    assert_eq!(left.as_deref(), Some("general"));
    assert!(cm.is_name_available("alice"));
    assert!(rm.get_room_members("general").is_empty());
    assert!(session_cleanup(&mut cm, &mut rm, 1).is_none());
}
