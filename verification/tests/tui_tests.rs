use rusty_chat::config::{ClientConfig, ServerConfig};
use rusty_chat::message::ChatMessage;
use rusty_chat::tui::action::Action;
use rusty_chat::tui::events::EventHandler;
use rusty_chat::tui::input::{InputHandler, KeyCode, KeyPress};
use rusty_chat::tui::state::{AppPage, AppState, ConnectionStatus, FocusedField, InputMode};
use rusty_chat::tui::update::{apply_user_list, handle_action, handle_text_input, IoRequest};
use rusty_chat::tui::widgets::{Header, HelpBar, InputBox, MessageInputBox, RoomList, UserList};

fn key(code: KeyCode) -> KeyPress {
    KeyPress { code, ctrl: false }
}

#[test]
fn fresh_state_shows_the_connection_page() {
    let s = AppState::new();
    assert_eq!(s.current_page, AppPage::Connection);
    assert_eq!(s.server_address, "127.0.0.1:4556");
    assert_eq!(s.current_room.as_deref(), Some("general"));
    assert_eq!(s.available_rooms, vec!["general".to_string()]);
    assert!(!s.is_connected());
}

#[test]
fn can_send_needs_connection_and_text() {
    let mut s = AppState::new();
    s.message_input = "hello".to_string();
    assert!(!s.can_send_message());
    s.connection_status = ConnectionStatus::Connected;
    assert!(s.can_send_message());
    s.message_input = "   ".to_string();
    assert!(!s.can_send_message());
}

#[test]
fn adding_a_message_snaps_scroll_back() {
    let mut s = AppState::new();
    s.scroll_offset = 5;
    let m = ChatMessage::system("x".to_string(), "general".to_string());
    s.add_message(m);
    assert_eq!(s.messages.len(), 1);
    assert_eq!(s.scroll_offset, 0);
}

#[test]
fn room_cycling_strips_the_lock_marker() {
    let mut s = AppState::new();
    s.available_rooms = vec!["general".to_string(), "den\u{1f512}".to_string()];
    s.next_room();
    assert_eq!(s.current_room.as_deref(), Some("den"));
    s.next_room();
    assert_eq!(s.current_room.as_deref(), Some("general"));
    s.previous_room();
    assert_eq!(s.current_room.as_deref(), Some("den"));
}

#[test]
fn scrolling_saturates_at_zero() {
    let mut s = AppState::new();
    s.scroll_down();
    assert_eq!(s.scroll_offset, 0);
    s.scroll_up();
    s.scroll_up();
    assert_eq!(s.scroll_offset, 2);
}

#[test]
fn text_input_appends_and_backspaces() {
    let mut field = String::from("ab");
    handle_text_input(&mut field, "c");
    assert_eq!(field, "abc");
    handle_text_input(&mut field, "\u{8}");
    assert_eq!(field, "ab");
    let mut empty = String::new();
    handle_text_input(&mut empty, "\u{8}");
    assert_eq!(empty, "");
}

#[test]
fn quit_action_asks_for_a_disconnect() {
    let mut s = AppState::new();
    let r = handle_action(&mut s, Action::Quit);
    assert!(s.should_quit);
    assert_eq!(r, IoRequest::Disconnect);
}

#[test]
fn connect_validates_address_and_name() {
    let mut s = AppState::new();
    s.username = String::new();
    let r = handle_action(&mut s, Action::Connect);
    assert_eq!(r, IoRequest::Stay);
    assert!(matches!(&s.connection_status, ConnectionStatus::Error(e) if e == "Missing address or username"));
    s.username = "alice".to_string();
    let r = handle_action(&mut s, Action::Connect);
    assert_eq!(r, IoRequest::Connect);
    assert_eq!(s.connection_status, ConnectionStatus::Connecting);
}

#[test]
fn send_message_clears_the_input() {
    let mut s = AppState::new();
    s.connection_status = ConnectionStatus::Connected;
    s.message_input = "hello".to_string();
    let r = handle_action(&mut s, Action::SendMessage);
    assert_eq!(r, IoRequest::Send("hello".to_string()));
    assert_eq!(s.message_input, "");
    let r = handle_action(&mut s, Action::SendMessage);
    assert_eq!(r, IoRequest::Stay);
}

#[test]
fn room_actions_ask_the_server_to_follow() {
    let mut s = AppState::new();
    s.available_rooms = vec!["general".to_string(), "den".to_string()];
    let r = handle_action(&mut s, Action::NextRoom);
    assert_eq!(r, IoRequest::Join("den".to_string()));
    let r = handle_action(&mut s, Action::ChangeRoom("general".to_string()));
    assert_eq!(r, IoRequest::Stay);
    assert_eq!(s.current_room.as_deref(), Some("general"));
}

#[test]
fn toggling_edit_mode_focuses_the_chat_input() {
    let mut s = AppState::new();
    s.current_page = AppPage::Chat;
    handle_action(&mut s, Action::ToggleInputMode);
    assert_eq!(s.input_mode, InputMode::Editing);
    assert_eq!(s.focused_field, FocusedField::MessageInput);
    handle_action(&mut s, Action::ToggleInputMode);
    assert_eq!(s.input_mode, InputMode::Normal);
}

#[test]
fn focus_moves_around_the_connection_form() {
    let mut s = AppState::new();
    handle_action(&mut s, Action::FocusNext);
    assert_eq!(s.focused_field, FocusedField::Username);
    handle_action(&mut s, Action::FocusNext);
    assert_eq!(s.focused_field, FocusedField::ConnectButton);
    handle_action(&mut s, Action::FocusPrevious);
    assert_eq!(s.focused_field, FocusedField::Username);
}

#[test]
fn user_list_updates_leave_out_the_own_name() {
    let mut s = AppState::new();
    s.username = "alice".to_string();
    apply_user_list(&mut s, vec!["alice".to_string(), "bob".to_string()]);
    assert_eq!(s.users_in_room, vec!["bob".to_string()]);
}

#[test]
fn control_c_always_quits() {
    let k = KeyPress { code: KeyCode::Char('c'), ctrl: true };
    let r = InputHandler::handle_key(k, &AppPage::Chat, &InputMode::Editing, &FocusedField::MessageInput);
    assert_eq!(r, Some(Action::Quit));
}

#[test]
fn normal_mode_keymap() {
    let page = AppPage::Connection;
    let focus = FocusedField::ConnectButton;
    assert_eq!(
        InputHandler::handle_normal_mode(key(KeyCode::Char('q')), &page, &focus),
        Some(Action::Quit)
    );
    assert_eq!(
        InputHandler::handle_normal_mode(key(KeyCode::Enter), &page, &focus),
        Some(Action::Connect)
    );
    assert_eq!(
        InputHandler::handle_normal_mode(key(KeyCode::Enter), &AppPage::Chat, &focus),
        Some(Action::SendMessage)
    );
    assert_eq!(
        InputHandler::handle_normal_mode(key(KeyCode::Up), &page, &focus),
        Some(Action::ScrollUp)
    );
    assert_eq!(InputHandler::handle_normal_mode(key(KeyCode::Other), &page, &focus), None);
}

#[test]
fn editing_mode_routes_characters_to_the_focused_field() {
    let r = InputHandler::handle_editing_mode(
        key(KeyCode::Char('x')),
        &AppPage::Connection,
        &FocusedField::Username,
    );
    assert_eq!(r, Some(Action::UpdateUsername("x".to_string())));
    let r = InputHandler::handle_editing_mode(
        key(KeyCode::Backspace),
        &AppPage::Connection,
        &FocusedField::ServerAddress,
    );
    assert_eq!(r, Some(Action::UpdateServerAddress("\u{8}".to_string())));
    let r = InputHandler::handle_editing_mode(
        key(KeyCode::Esc),
        &AppPage::Chat,
        &FocusedField::MessageList,
    );
    assert_eq!(r, Some(Action::ToggleInputMode));
}

#[test]
fn widgets_carry_their_fields() {
    let b = InputBox::new("Server".to_string(), "addr".to_string()).focused(true).editing(true);
    assert!(b.is_focused && b.is_editing);
    assert_eq!(b.title, "Server");
    let h = Header::new(
        "alice".to_string(),
        "addr".to_string(),
        Some("general".to_string()),
        ConnectionStatus::Connected,
    );
    assert_eq!(h.username, "alice");
    let hb = HelpBar::new(InputMode::Normal);
    assert_eq!(hb.input_mode, InputMode::Normal);
    let mib = MessageInputBox::new("hi".to_string(), InputMode::Editing, true);
    assert!(mib.can_send);
    let rl = RoomList::new(vec!["general".to_string()], None).focused(true);
    assert!(rl.is_focused);
    let ul = UserList::new(vec!["bob".to_string()], "alice".to_string());
    assert_eq!(ul.users.len(), 1);
    let ev = EventHandler::new(250);
    assert_eq!(ev.tick_rate_ms, 250);
}

#[test]
fn action_labels_name_the_main_actions() {
    assert_eq!(Action::Quit.label(), "Quit");
    assert_eq!(Action::Connect.label(), "Connect");
    assert_eq!(Action::Disconnect.label(), "Disconnect");
    assert_eq!(Action::SendMessage.label(), "SendMessage");
}

#[test]
fn server_config_defaults() {
    let c = ServerConfig::default();
    assert_eq!(c.address, "localhost:4556");
    assert_eq!(c.buffer_size, 1024);
    assert_eq!(c.max_clients, 32);
}

#[test]
fn client_config_validation() {
    let mut c = ClientConfig {
        name: Some("alice".to_string()),
        room: "general".to_string(),
        password: String::new(),
        color: "white".to_string(),
        server: "localhost:4556".to_string(),
    };
    assert!(c.validate().is_ok());
    assert_eq!(c.get_display_name(3), "alice");
    c.name = None;
    assert_eq!(c.get_display_name(3), "Anonymous#3");
    c.name = Some("a".to_string());
    assert_eq!(c.validate().unwrap_err(), "Name must be between 2 and 20 characters.");
    c.name = Some("alice".to_string());
    c.color = "mauve".to_string();
    assert_eq!(
        c.validate().unwrap_err(),
        "Invalid color. Use [\"red\", \"green\", \"blue\", \"yellow\", \"magenta\", \"cyan\", \"white\"]"
    );
}
