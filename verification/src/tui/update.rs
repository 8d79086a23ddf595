//! The client's state transitions: one action in, a new state and at most
//! one I/O request out. The I/O shell performs the request (connect, send,
//! join) and feeds the outcome back as further actions.
use crate::text::str_eq;
use crate::tui::action::Action;
use crate::tui::state::{AppPage, AppState, ConnectionStatus, FocusedField, InputMode};
use vstd::prelude::*;

verus! {

/// What the I/O shell is asked to do after a state transition.
#[derive(Debug, PartialEq)]
pub enum IoRequest {
    /// Nothing; the transition was purely local.
    Stay,
    /// Open a connection to `state.server_address` as `state.username`.
    Connect,
    /// Close the connection.
    Disconnect,
    /// Send this chat line to the server.
    Send(String),
    /// Ask the server to move this session into this room.
    Join(String),
}

/// What one typed fragment does to an input field: the backspace marker
/// removes the last character, anything else is appended.
pub open spec fn text_input_post(pre: Seq<char>, post: Seq<char>, input: Seq<char>) -> bool {
    if input == seq!['\u{8}'] {
        post == (if pre.len() > 0 {
            pre.drop_last()
        } else {
            pre
        })
    } else {
        post == pre + input
    }
}

/// Applies one typed fragment to an input field: the backspace marker
/// removes the last character, anything else is appended.
pub fn handle_text_input(field: &mut String, input: &str)
    ensures
        text_input_post(old(field)@, final(field)@, input@),
{
    proof {
        reveal_strlit("\u{8}");
    }
    if str_eq(input, "\u{8}") {
        proof {
            assert(input@ =~= seq!['\u{8}']);
        }
        let n = field.as_str().unicode_len();
        if n > 0 {
            let shortened = String::from_str(field.as_str().substring_char(0, n - 1));
            proof {
                assert(shortened@ =~= field@.drop_last());
            }
            *field = shortened;
        }
    } else {
        proof {
            if input@ == seq!['\u{8}'] {
                assert(input@ =~= "\u{8}"@);
            }
        }
        field.append(input);
    }
}

/// The focus ring of the connection page, forward.
pub open spec fn focus_next_spec(page: AppPage, f: FocusedField) -> FocusedField {
    match page {
        AppPage::Connection => match f {
            FocusedField::ServerAddress => FocusedField::Username,
            FocusedField::Username => FocusedField::ConnectButton,
            FocusedField::ConnectButton => FocusedField::ServerAddress,
            _ => FocusedField::ServerAddress,
        },
        AppPage::Chat => FocusedField::MessageInput,
    }
}

/// The focus ring of the connection page, backward.
pub open spec fn focus_previous_spec(page: AppPage, f: FocusedField) -> FocusedField {
    match page {
        AppPage::Connection => match f {
            FocusedField::ServerAddress => FocusedField::ConnectButton,
            FocusedField::Username => FocusedField::ServerAddress,
            FocusedField::ConnectButton => FocusedField::Username,
            _ => FocusedField::ConnectButton,
        },
        AppPage::Chat => FocusedField::MessageInput,
    }
}

fn focus_next(state: &mut AppState)
    ensures
        final(state).focused_field == focus_next_spec(
            old(state).current_page,
            old(state).focused_field,
        ),
        final(state).current_page == old(state).current_page,
        final(state).messages == old(state).messages,
{
    state.focused_field = match state.current_page {
        AppPage::Connection => match state.focused_field {
            FocusedField::ServerAddress => FocusedField::Username,
            FocusedField::Username => FocusedField::ConnectButton,
            FocusedField::ConnectButton => FocusedField::ServerAddress,
            _ => FocusedField::ServerAddress,
        },
        AppPage::Chat => FocusedField::MessageInput,
    };
}

fn focus_previous(state: &mut AppState)
    ensures
        final(state).focused_field == focus_previous_spec(
            old(state).current_page,
            old(state).focused_field,
        ),
        final(state).current_page == old(state).current_page,
        final(state).messages == old(state).messages,
{
    state.focused_field = match state.current_page {
        AppPage::Connection => match state.focused_field {
            FocusedField::ServerAddress => FocusedField::ConnectButton,
            FocusedField::Username => FocusedField::ServerAddress,
            FocusedField::ConnectButton => FocusedField::Username,
            _ => FocusedField::ConnectButton,
        },
        AppPage::Chat => FocusedField::MessageInput,
    };
}

/// Applies one action to the client state and names the I/O the shell
/// must now perform: quitting and disconnecting close the connection,
/// connecting is requested only when both address and name are present,
/// sending only when a connected client has typed something, and moving
/// between rooms asks the server to follow.
pub fn handle_action(state: &mut AppState, action: Action) -> (r: IoRequest)
    ensures
        (action is Quit ==> final(state).should_quit && r is Disconnect),
        (action is SwitchToConnectionPage ==> final(state).current_page is Connection && r
            is Stay),
        (action is SwitchToChatPage ==> final(state).current_page is Chat && r is Stay),
        (action is Connect ==> (if old(state).server_address@.len() == 0 || old(state).username@.len() == 0 {
            final(state).connection_status matches ConnectionStatus::Error(e) && e@
                == "Missing address or username"@ && r is Stay
        } else {
            final(state).connection_status is Connecting && r is Connect
        })),
        (action is Disconnect ==> final(state).connection_status is Disconnected && final(state).current_page is Connection && r is Disconnect),
        (action is SendMessage ==> (if old(state).connection_status is Connected
            && crate::text::trim_spec(old(state).message_input@).len() > 0 {
            (r matches IoRequest::Send(m) && m@ == old(state).message_input@) && final(state).message_input@ == Seq::<char>::empty()
        } else {
            r is Stay && *final(state) == *old(state)
        })),
        (action matches Action::ChangeRoom(room) ==> final(state).current_room == Some(room)
            && final(state).scroll_offset == 0 && r is Stay),
        (action is ScrollUp ==> final(state).scroll_offset >= old(state).scroll_offset && r
            is Stay),
        (action is ScrollDown ==> final(state).scroll_offset <= old(state).scroll_offset && r
            is Stay),
        (action is NextRoom || action is PreviousRoom ==> (match final(state).current_room {
            Some(c) => (r matches IoRequest::Join(j) && j@ == c@) || r is Stay,
            None => r is Stay,
        })),
        (action is ToggleInputMode ==> final(state).input_mode == (match old(state).input_mode {
            InputMode::Normal => InputMode::Editing,
            InputMode::Editing => InputMode::Normal,
        }) && r is Stay),
        (action is FocusNext ==> final(state).focused_field == focus_next_spec(
            old(state).current_page,
            old(state).focused_field,
        ) && r is Stay),
        (action is FocusPrevious ==> final(state).focused_field == focus_previous_spec(
            old(state).current_page,
            old(state).focused_field,
        ) && r is Stay),
        (action is Tick || action is Render ==> *final(state) == *old(state) && r is Stay),
        (action matches Action::UpdateServerAddress(input) ==> text_input_post(
            old(state).server_address@,
            final(state).server_address@,
            input@,
        ) && !(final(state).connection_status is Error) && r is Stay),
        (action matches Action::UpdateUsername(input) ==> text_input_post(
            old(state).username@,
            final(state).username@,
            input@,
        ) && !(final(state).connection_status is Error) && r is Stay),
        (action matches Action::UpdateMessageInput(input) ==> text_input_post(
            old(state).message_input@,
            final(state).message_input@,
            input@,
        ) && r is Stay),
{
    match action {
        Action::Quit => {
            state.should_quit = true;
            IoRequest::Disconnect
        },
        Action::SwitchToConnectionPage => {
            state.current_page = AppPage::Connection;
            IoRequest::Stay
        },
        Action::SwitchToChatPage => {
            state.current_page = AppPage::Chat;
            IoRequest::Stay
        },
        Action::Connect => {
            if state.server_address.as_str().unicode_len() == 0 || state.username.as_str()
                .unicode_len() == 0 {
                state.connection_status = ConnectionStatus::Error(
                    String::from_str("Missing address or username"),
                );
                IoRequest::Stay
            } else {
                state.connection_status = ConnectionStatus::Connecting;
                IoRequest::Connect
            }
        },
        Action::Disconnect => {
            state.connection_status = ConnectionStatus::Disconnected;
            state.current_page = AppPage::Connection;
            IoRequest::Disconnect
        },
        Action::SendMessage => {
            if state.can_send_message() {
                let message = state.message_input.clone();
                state.clear_input();
                IoRequest::Send(message)
            } else {
                IoRequest::Stay
            }
        },
        Action::UpdateServerAddress(input) => {
            handle_text_input(&mut state.server_address, input.as_str());
            if matches!(state.connection_status, ConnectionStatus::Error(_)) {
                state.connection_status = ConnectionStatus::Disconnected;
            }
            IoRequest::Stay
        },
        Action::UpdateUsername(input) => {
            handle_text_input(&mut state.username, input.as_str());
            if matches!(state.connection_status, ConnectionStatus::Error(_)) {
                state.connection_status = ConnectionStatus::Disconnected;
            }
            IoRequest::Stay
        },
        Action::UpdateMessageInput(input) => {
            handle_text_input(&mut state.message_input, input.as_str());
            IoRequest::Stay
        },
        Action::ChangeRoom(room) => {
            state.change_room(room);
            IoRequest::Stay
        },
        Action::NextRoom => {
            state.next_room();
            match &state.current_room {
                Some(room) => IoRequest::Join(room.clone()),
                None => IoRequest::Stay,
            }
        },
        Action::PreviousRoom => {
            state.previous_room();
            match &state.current_room {
                Some(room) => IoRequest::Join(room.clone()),
                None => IoRequest::Stay,
            }
        },
        Action::ScrollUp => {
            state.scroll_up();
            IoRequest::Stay
        },
        Action::ScrollDown => {
            state.scroll_down();
            IoRequest::Stay
        },
        Action::FocusNext => {
            focus_next(state);
            IoRequest::Stay
        },
        Action::FocusPrevious => {
            focus_previous(state);
            IoRequest::Stay
        },
        Action::ToggleInputMode => {
            let new_mode = match state.input_mode {
                InputMode::Normal => {
                    if matches!(state.current_page, AppPage::Chat) {
                        state.focused_field = FocusedField::MessageInput;
                    }
                    InputMode::Editing
                },
                InputMode::Editing => InputMode::Normal,
            };
            state.input_mode = new_mode;
            IoRequest::Stay
        },
        Action::Tick => IoRequest::Stay,
        Action::Render => IoRequest::Stay,
        Action::Error(_) => IoRequest::Stay,
    }
}

/// Replaces the room's member list, leaving out the client's own name so
/// it is not shown twice.
pub fn apply_user_list(state: &mut AppState, users: Vec<String>)
    ensures
        final(state).users_in_room.deep_view() == users.deep_view().filter(
            |u: Seq<char>| u != old(state).username@,
        ),
        final(state).username == old(state).username,
        final(state).messages == old(state).messages,
{
    let n = users.len();
    let mut kept: Vec<String> = Vec::new();
    let mut i: usize = 0;
    proof {
        assert(users.deep_view().subrange(0, 0).filter(|u: Seq<char>| u != state.username@)
            =~= kept.deep_view());
    }
    while i < n
        invariant
            i <= n,
            n == users@.len(),
            state == old(state),
            kept.deep_view() == users.deep_view().subrange(0, i as int).filter(
                |u: Seq<char>| u != state.username@,
            ),
        decreases n - i,
    {
        let ghost pre = users.deep_view().subrange(0, i as int);
        let ghost now = users.deep_view().subrange(0, i + 1);
        let ghost kept0 = kept.deep_view();
        if !str_eq(users[i].as_str(), state.username.as_str()) {
            kept.push(users[i].clone());
            proof {
                assert(kept.deep_view() =~= kept0.push(users.deep_view()[i as int]));
            }
        }
        proof {
            assert(now.drop_last() =~= pre);
            assert(now.last() == users.deep_view()[i as int]);
            assert(users.deep_view()[i as int] == users@[i as int]@);
            reveal_with_fuel(Seq::filter, 2);
            assert(kept.deep_view() == now.filter(|u: Seq<char>| u != state.username@));
        }
        i += 1;
    }
    proof {
        assert(users.deep_view().subrange(0, n as int) =~= users.deep_view());
    }
    state.users_in_room = kept;
}

} // verus!
