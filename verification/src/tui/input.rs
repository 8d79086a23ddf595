//! Translating key presses into actions, by page, input mode and focus.
use crate::tui::action::Action;
use crate::tui::state::{AppPage, FocusedField, InputMode};
use vstd::prelude::*;

verus! {

/// The keys the client reacts to; anything else is `Other`.
#[derive(Clone, Copy, Debug, PartialEq, Eq, Structural)]
pub enum KeyCode {
    Char(char),
    Enter,
    Esc,
    Tab,
    BackTab,
    Up,
    Down,
    Backspace,
    Other,
}

/// One key press with its control modifier.
#[derive(Clone, Copy, Debug, PartialEq, Eq, Structural)]
pub struct KeyPress {
    pub code: KeyCode,
    pub ctrl: bool,
}

/// The normal-mode keymap.
pub open spec fn normal_mode_spec(key: KeyPress, page: AppPage, focus: FocusedField) -> Option<
    Action,
> {
    match key.code {
        KeyCode::Char(c) => if c == 'q' {
            Some(Action::Quit)
        } else if c == 'i' {
            Some(Action::ToggleInputMode)
        } else if c == 'n' {
            Some(Action::NextRoom)
        } else if c == 'p' {
            Some(Action::PreviousRoom)
        } else {
            None
        },
        KeyCode::Tab => Some(Action::FocusNext),
        KeyCode::BackTab => Some(Action::FocusPrevious),
        KeyCode::Enter => match page {
            AppPage::Connection => if focus is ConnectButton {
                Some(Action::Connect)
            } else {
                Some(Action::ToggleInputMode)
            },
            AppPage::Chat => Some(Action::SendMessage),
        },
        KeyCode::Up => Some(Action::ScrollUp),
        KeyCode::Down => Some(Action::ScrollDown),
        _ => None,
    }
}

/// The editing-mode keymap: characters and backspaces (carried as the
/// one-character backspace marker) feed whichever field holds the focus.
pub open spec fn editing_mode_post(
    key: KeyPress,
    page: AppPage,
    focus: FocusedField,
    r: Option<Action>,
) -> bool {
    match key.code {
        KeyCode::Esc => r == Some(Action::ToggleInputMode),
        KeyCode::Enter => r == (match page {
            AppPage::Connection => Some(Action::ToggleInputMode),
            AppPage::Chat => Some(Action::SendMessage),
        }),
        KeyCode::Char(c) => match (page, focus) {
            (AppPage::Connection, FocusedField::ServerAddress) => (r matches Some(
                Action::UpdateServerAddress(s),
            ) && s@ == seq![c]),
            (AppPage::Connection, FocusedField::Username) => (r matches Some(
                Action::UpdateUsername(s),
            ) && s@ == seq![c]),
            (AppPage::Chat, FocusedField::MessageList) => (r matches Some(
                Action::UpdateMessageInput(s),
            ) && s@ == seq![c]),
            _ => r is None,
        },
        KeyCode::Backspace => match (page, focus) {
            (AppPage::Connection, FocusedField::ServerAddress) => (r matches Some(
                Action::UpdateServerAddress(s),
            ) && s@ == seq!['\u{8}']),
            (AppPage::Connection, FocusedField::Username) => (r matches Some(
                Action::UpdateUsername(s),
            ) && s@ == seq!['\u{8}']),
            (AppPage::Chat, FocusedField::MessageList) => (r matches Some(
                Action::UpdateMessageInput(s),
            ) && s@ == seq!['\u{8}']),
            _ => r is None,
        },
        _ => r is None,
    }
}

/// Relies on `String::push`: the one-character string holding exactly `c`.
#[verifier::external_body]
fn char_string(c: char) -> (r: String)
    ensures
        r@ == seq![c],
{
    let mut s = String::new();
    s.push(c);
    s
}

pub struct InputHandler;

impl InputHandler {
    /// Maps one key press to an action. Control-C always quits; otherwise
    /// the input mode decides which keymap applies.
    pub fn handle_key(
        key: KeyPress,
        current_page: &AppPage,
        input_mode: &InputMode,
        focused_field: &FocusedField,
    ) -> (r: Option<Action>)
        ensures
            key.ctrl && key.code == KeyCode::Char('c') ==> r == Some(Action::Quit),
            !(key.ctrl && key.code == KeyCode::Char('c')) && input_mode is Normal ==> r
                == normal_mode_spec(key, *current_page, *focused_field),
            !(key.ctrl && key.code == KeyCode::Char('c')) && input_mode is Editing
                ==> editing_mode_post(key, *current_page, *focused_field, r),
    {
        if key.ctrl && key.code == KeyCode::Char('c') {
            return Some(Action::Quit);
        }
        match input_mode {
            InputMode::Normal => Self::handle_normal_mode(key, current_page, focused_field),
            InputMode::Editing => Self::handle_editing_mode(key, current_page, focused_field),
        }
    }

    pub fn handle_normal_mode(
        key: KeyPress,
        current_page: &AppPage,
        focused_field: &FocusedField,
    ) -> (r: Option<Action>)
        ensures
            r == normal_mode_spec(key, *current_page, *focused_field),
    {
        match key.code {
            KeyCode::Char(c) => {
                if c == 'q' {
                    Some(Action::Quit)
                } else if c == 'i' {
                    Some(Action::ToggleInputMode)
                } else if c == 'n' {
                    Some(Action::NextRoom)
                } else if c == 'p' {
                    Some(Action::PreviousRoom)
                } else {
                    None
                }
            },
            KeyCode::Tab => Some(Action::FocusNext),
            KeyCode::BackTab => Some(Action::FocusPrevious),
            KeyCode::Enter => {
                match current_page {
                    AppPage::Connection => {
                        if matches!(focused_field, FocusedField::ConnectButton) {
                            Some(Action::Connect)
                        } else {
                            Some(Action::ToggleInputMode)
                        }
                    },
                    AppPage::Chat => Some(Action::SendMessage),
                }
            },
            KeyCode::Up => Some(Action::ScrollUp),
            KeyCode::Down => Some(Action::ScrollDown),
            _ => None,
        }
    }

    pub fn handle_editing_mode(
        key: KeyPress,
        current_page: &AppPage,
        focused_field: &FocusedField,
    ) -> (r: Option<Action>)
        ensures
            editing_mode_post(key, *current_page, *focused_field, r),
    {
        match key.code {
            KeyCode::Esc => Some(Action::ToggleInputMode),
            KeyCode::Enter => {
                match current_page {
                    AppPage::Connection => Some(Action::ToggleInputMode),
                    AppPage::Chat => Some(Action::SendMessage),
                }
            },
            KeyCode::Char(c) => {
                match (current_page, focused_field) {
                    (AppPage::Connection, FocusedField::ServerAddress) => Some(
                        Action::UpdateServerAddress(char_string(c)),
                    ),
                    (AppPage::Connection, FocusedField::Username) => Some(
                        Action::UpdateUsername(char_string(c)),
                    ),
                    (AppPage::Chat, FocusedField::MessageList) => Some(
                        Action::UpdateMessageInput(char_string(c)),
                    ),
                    _ => None,
                }
            },
            KeyCode::Backspace => {
                match (current_page, focused_field) {
                    (AppPage::Connection, FocusedField::ServerAddress) => Some(
                        Action::UpdateServerAddress(char_string('\u{8}')),
                    ),
                    (AppPage::Connection, FocusedField::Username) => Some(
                        Action::UpdateUsername(char_string('\u{8}')),
                    ),
                    (AppPage::Chat, FocusedField::MessageList) => Some(
                        Action::UpdateMessageInput(char_string('\u{8}')),
                    ),
                    _ => None,
                }
            },
            _ => None,
        }
    }
}

} // verus!
