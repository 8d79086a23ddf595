//! The actions the terminal client's input layer can ask for.
use vstd::prelude::*;

verus! {

#[derive(Clone, Debug, PartialEq)]
pub enum Action {
    Quit,
    SwitchToConnectionPage,
    SwitchToChatPage,
    UpdateServerAddress(String),
    UpdateUsername(String),
    Connect,
    Disconnect,
    UpdateMessageInput(String),
    SendMessage,
    ScrollUp,
    ScrollDown,
    ChangeRoom(String),
    NextRoom,
    PreviousRoom,
    FocusNext,
    FocusPrevious,
    ToggleInputMode,
    Tick,
    Render,
    Error(String),
}

impl Action {
    /// The action's name, for logging.
    pub fn label(&self) -> (r: String)
        ensures
            self is Quit ==> r@ == "Quit"@,
            self is Connect ==> r@ == "Connect"@,
            self is Disconnect ==> r@ == "Disconnect"@,
            self is SendMessage ==> r@ == "SendMessage"@,
    {
        match self {
            Action::Quit => String::from_str("Quit"),
            Action::SwitchToConnectionPage => String::from_str("SwitchToConnectionPage"),
            Action::SwitchToChatPage => String::from_str("SwitchToChatPage"),
            Action::UpdateServerAddress(_) => String::from_str("UpdateServerAddress"),
            Action::UpdateUsername(_) => String::from_str("UpdateUsername"),
            Action::Connect => String::from_str("Connect"),
            Action::Disconnect => String::from_str("Disconnect"),
            Action::UpdateMessageInput(_) => String::from_str("UpdateMessageInput"),
            Action::SendMessage => String::from_str("SendMessage"),
            Action::ScrollUp => String::from_str("ScrollUp"),
            Action::ScrollDown => String::from_str("ScrollDown"),
            Action::ChangeRoom(_) => String::from_str("ChangeRoom"),
            Action::NextRoom => String::from_str("NextRoom"),
            Action::PreviousRoom => String::from_str("PreviousRoom"),
            Action::FocusNext => String::from_str("FocusNext"),
            Action::FocusPrevious => String::from_str("FocusPrevious"),
            Action::ToggleInputMode => String::from_str("ToggleInputMode"),
            Action::Tick => String::from_str("Tick"),
            Action::Render => String::from_str("Render"),
            Action::Error(_) => String::from_str("Error"),
        }
    }
}

} // verus!
