use rusty_chat::client_registry::ClientManager;
use rusty_chat::command::{CommandProcessor, CommandResult};
use rusty_chat::message::MessageType;
use rusty_chat::room_registry::RoomManager;

#[test]
fn parse_nick_without_argument_is_invalid() {
    let r = CommandProcessor::parse("/nick");
    assert!(matches!(r, Some(CommandResult::InvalidCommand(m)) if m == "Usage: /nick <new_name>"));
}

#[test]
fn parse_nick_with_argument() {
    let r = CommandProcessor::parse("/nick bob");
    assert!(matches!(r, Some(CommandResult::ChangeNick(n)) if n == "bob"));
}

#[test]
fn parse_non_command_is_none() {
    assert!(CommandProcessor::parse("hello there").is_none());
    assert!(CommandProcessor::parse("   plain chat ").is_none());
}

#[test]
fn parse_bare_slash_is_empty_command() {
    let r = CommandProcessor::parse("/");
    assert!(matches!(r, Some(CommandResult::InvalidCommand(m)) if m == "Empty command"));
}

#[test]
fn parse_join_with_and_without_password() {
    let r = CommandProcessor::parse("/join den pw");
    assert!(
        matches!(r, Some(CommandResult::JoinRoom(room, Some(p))) if room == "den" && p == "pw")
    );
    let r = CommandProcessor::parse("/join den");
    assert!(matches!(r, Some(CommandResult::JoinRoom(room, None)) if room == "den"));
    let r = CommandProcessor::parse("/join");
    assert!(
        matches!(r, Some(CommandResult::InvalidCommand(m)) if m == "Usage: /join <room> [password]")
    );
}

#[test]
fn parse_create_room() {
    let r = CommandProcessor::parse("/create den pw");
    assert!(
        matches!(r, Some(CommandResult::CreateRoom(room, Some(p))) if room == "den" && p == "pw")
    );
    let r = CommandProcessor::parse("/create");
    assert!(matches!(r, Some(CommandResult::InvalidCommand(_))));
}

#[test]
fn parse_invite_needs_both_arguments() {
    let r = CommandProcessor::parse("/invite bob den");
    assert!(
        matches!(r, Some(CommandResult::InviteUser(u, room)) if u == "bob" && room == "den")
    );
    let r = CommandProcessor::parse("/invite bob");
    assert!(
        matches!(r, Some(CommandResult::InvalidCommand(m)) if m == "Usage: /invite <username> <room_name>")
    );
}

#[test]
fn parse_whisper_joins_the_message_and_knows_its_alias() {
    let r = CommandProcessor::parse("/whisper bob hi there");
    assert!(
        matches!(r, Some(CommandResult::Whisper(t, m)) if t == "bob" && m == "hi there")
    );
    let r = CommandProcessor::parse("/w bob psst");
    assert!(matches!(r, Some(CommandResult::Whisper(t, m)) if t == "bob" && m == "psst"));
    let r = CommandProcessor::parse("/w bob");
    assert!(
        matches!(r, Some(CommandResult::InvalidCommand(m)) if m == "Usage: /w <user> <message>")
    );
}

#[test]
fn parse_simple_verbs_and_aliases() {
    assert!(matches!(CommandProcessor::parse("/list"), Some(CommandResult::ListUsers)));
    assert!(matches!(CommandProcessor::parse("/rooms"), Some(CommandResult::ListRooms)));
    assert!(matches!(CommandProcessor::parse("/quit"), Some(CommandResult::Quit)));
    assert!(matches!(CommandProcessor::parse("/exit"), Some(CommandResult::Quit)));
    assert!(matches!(CommandProcessor::parse("/help"), Some(CommandResult::Help)));
    assert!(matches!(CommandProcessor::parse("/?"), Some(CommandResult::Help)));
}

#[test]
fn parse_unknown_verb_names_it() {
    let r = CommandProcessor::parse("/frobnicate");
    assert!(
        matches!(r, Some(CommandResult::InvalidCommand(m)) if m == "Unknown command: frobnicate")
    );
}

#[test]
fn execute_nick_respects_taken_names() {
    let mut cm = ClientManager::new();
    let mut rm = RoomManager::new();
    cm.register_client(1, "alice".to_string());
    cm.register_client(2, "bob".to_string());
    let r = CommandProcessor::execute(
        CommandResult::ChangeNick("bob".to_string()),
        1,
        &mut cm,
        &mut rm,
    );
    assert_eq!(r.unwrap_err(), "✗ Name already taken");
    let r = CommandProcessor::execute(
        CommandResult::ChangeNick("alicia".to_string()),
        1,
        &mut cm,
        &mut rm,
    );
    assert!(matches!(r, Ok(None)));
    assert_eq!(cm.get_clients_name(1).as_deref(), Some("alicia"));
}

#[test]
fn execute_join_reports_each_failure() {
    let mut cm = ClientManager::new();
    let mut rm = RoomManager::new();
    rm.create_room("vault".to_string(), Some("pw".to_string()), 9).unwrap();
    let r = CommandProcessor::execute(
        CommandResult::JoinRoom("nowhere".to_string(), None),
        1,
        &mut cm,
        &mut rm,
    );
    assert_eq!(r.unwrap_err(), "Room 'nowhere' does not exist");
    let r = CommandProcessor::execute(
        CommandResult::JoinRoom("vault".to_string(), None),
        1,
        &mut cm,
        &mut rm,
    );
    assert_eq!(r.unwrap_err(), "Room requires a password!");
    let r = CommandProcessor::execute(
        CommandResult::JoinRoom("vault".to_string(), Some("nope".to_string())),
        1,
        &mut cm,
        &mut rm,
    );
    assert_eq!(r.unwrap_err(), "Incorrect password!");
    let r = CommandProcessor::execute(
        CommandResult::JoinRoom("vault".to_string(), Some("pw".to_string())),
        1,
        &mut cm,
        &mut rm,
    );
    assert!(matches!(r, Ok(None)));
    assert_eq!(rm.get_room_members("vault"), vec![1]);
}

#[test]
fn execute_join_leaves_the_old_room_even_on_failure() {
    let mut cm = ClientManager::new();
    let mut rm = RoomManager::new();
    rm.join_room("general", 1, None).unwrap();
    let r = CommandProcessor::execute(
        CommandResult::JoinRoom("nowhere".to_string(), None),
        1,
        &mut cm,
        &mut rm,
    );
    assert!(r.is_err());
    assert!(rm.get_user_room(1).is_none());
}

#[test]
fn execute_create_joins_the_creator_and_reports() {
    let mut cm = ClientManager::new();
    let mut rm = RoomManager::new();
    let r = CommandProcessor::execute(
        CommandResult::CreateRoom("den".to_string(), None),
        5,
        &mut cm,
        &mut rm,
    );
    assert_eq!(r.unwrap_err(), "✓ Room 'den' created and joined");
    assert_eq!(rm.get_room_members("den"), vec![5]);
    let r = CommandProcessor::execute(
        CommandResult::CreateRoom("den".to_string(), None),
        6,
        &mut cm,
        &mut rm,
    );
    assert_eq!(r.unwrap_err(), "x Room 'den' already exists");
    let r = CommandProcessor::execute(
        CommandResult::CreateRoom("vault".to_string(), Some("pw".to_string())),
        5,
        &mut cm,
        &mut rm,
    );
    assert_eq!(r.unwrap_err(), "✓ Room 'vault' created (password protected) and joined");
}

#[test]
fn execute_invite_checks_room_owner_and_target() {
    let mut cm = ClientManager::new();
    let mut rm = RoomManager::new();
    cm.register_client(1, "alice".to_string());
    cm.register_client(2, "bob".to_string());
    rm.create_room("den".to_string(), Some("pw".to_string()), 1).unwrap();
    let r = CommandProcessor::execute(
        CommandResult::InviteUser("bob".to_string(), "nowhere".to_string()),
        1,
        &mut cm,
        &mut rm,
    );
    assert_eq!(r.unwrap_err(), "✗ Room 'nowhere' does not exist");
    let r = CommandProcessor::execute(
        CommandResult::InviteUser("bob".to_string(), "den".to_string()),
        2,
        &mut cm,
        &mut rm,
    );
    assert_eq!(r.unwrap_err(), "✗ Only the owner of this room can invite users");
    let r = CommandProcessor::execute(
        CommandResult::InviteUser("ghost".to_string(), "den".to_string()),
        1,
        &mut cm,
        &mut rm,
    );
    assert_eq!(r.unwrap_err(), "✗ User 'ghost' not found");
    let r = CommandProcessor::execute(
        CommandResult::InviteUser("bob".to_string(), "den".to_string()),
        1,
        &mut cm,
        &mut rm,
    );
    let msg = r.unwrap().unwrap();
    assert_eq!(msg.message_type, MessageType::Whisper);
    assert_eq!(msg.target, Some(2));
    assert!(msg.content.contains("alice invited you to join room 'den'"));
    assert!(msg.content.contains("Password: pw"));
}

#[test]
fn execute_list_users_and_rooms() {
    let mut cm = ClientManager::new();
    let mut rm = RoomManager::new();
    cm.register_client(1, "alice".to_string());
    cm.register_client(2, "bob".to_string());
    rm.join_room("general", 1, None).unwrap();
    rm.join_room("general", 2, None).unwrap();
    let r = CommandProcessor::execute(CommandResult::ListUsers, 1, &mut cm, &mut rm);
    assert_eq!(r.unwrap_err(), "Users in general: alice, bob");
    let r = CommandProcessor::execute(CommandResult::ListUsers, 99, &mut cm, &mut rm);
    assert_eq!(r.unwrap_err(), "You are not in a room");
    let r = CommandProcessor::execute(CommandResult::ListRooms, 1, &mut cm, &mut rm);
    assert_eq!(r.unwrap_err(), "Available rooms:\n   general (2 users)\n");
}

#[test]
fn execute_whisper_resolves_target_by_name() {
    let mut cm = ClientManager::new();
    let mut rm = RoomManager::new();
    cm.register_client(1, "alice".to_string());
    cm.register_client(2, "bob".to_string());
    let r = CommandProcessor::execute(
        CommandResult::Whisper("bob".to_string(), "psst".to_string()),
        1,
        &mut cm,
        &mut rm,
    );
    let msg = r.unwrap().unwrap();
    assert_eq!(msg.message_type, MessageType::Whisper);
    assert_eq!(msg.sender_name, "alice");
    assert_eq!(msg.content, "psst");
    assert_eq!(msg.target, Some(2));
    let r = CommandProcessor::execute(
        CommandResult::Whisper("ghost".to_string(), "psst".to_string()),
        1,
        &mut cm,
        &mut rm,
    );
    assert_eq!(r.unwrap_err(), "User 'ghost' not found");
}

#[test]
fn execute_quit_help_and_invalid() {
    let mut cm = ClientManager::new();
    let mut rm = RoomManager::new();
    assert!(matches!(
        CommandProcessor::execute(CommandResult::Quit, 1, &mut cm, &mut rm),
        Ok(None)
    ));
    let help = CommandProcessor::execute(CommandResult::Help, 1, &mut cm, &mut rm).unwrap_err();
    assert!(help.contains("Available Commands"));
    assert!(help.contains("/nick <name>"));
    let r = CommandProcessor::execute(
        CommandResult::InvalidCommand("Usage: /nick <new_name>".to_string()),
        1,
        &mut cm,
        &mut rm,
    );
    assert_eq!(r.unwrap_err(), "✗ Usage: /nick <new_name>");
}
