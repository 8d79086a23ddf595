//! The data each terminal widget is drawn from. Rendering itself is the
//! I/O shell's job; these types only carry what it draws.
use crate::tui::state::{ConnectionStatus, InputMode};
use vstd::prelude::*;

verus! {

/// A one-line text box with a title, shown focused or in edit mode.
#[derive(Debug)]
pub struct InputBox {
    pub title: String,
    pub content: String,
    pub is_focused: bool,
    pub is_editing: bool,
}

impl InputBox {
    pub fn new(title: String, content: String) -> (r: InputBox)
        ensures
            r.title == title,
            r.content == content,
            !r.is_focused,
            !r.is_editing,
    {
        InputBox { title, content, is_focused: false, is_editing: false }
    }

    pub fn focused(self, is_focused: bool) -> (r: InputBox)
        ensures
            r.title == self.title,
            r.content == self.content,
            r.is_focused == is_focused,
            r.is_editing == self.is_editing,
    {
        InputBox { is_focused, ..self }
    }

    pub fn editing(self, is_editing: bool) -> (r: InputBox)
        ensures
            r.title == self.title,
            r.content == self.content,
            r.is_focused == self.is_focused,
            r.is_editing == is_editing,
    {
        InputBox { is_editing, ..self }
    }
}

/// The header bar: who is connected where, and in which room.
#[derive(Debug)]
pub struct Header {
    pub username: String,
    pub server_address: String,
    pub current_room: Option<String>,
    pub connection_status: ConnectionStatus,
}

impl Header {
    pub fn new(
        username: String,
        server_address: String,
        current_room: Option<String>,
        connection_status: ConnectionStatus,
    ) -> (r: Header)
        ensures
            r.username == username,
            r.server_address == server_address,
            r.current_room == current_room,
            r.connection_status == connection_status,
    {
        Header { username, server_address, current_room, connection_status }
    }
}

/// The key-binding hints shown at the bottom, by input mode.
#[derive(Debug)]
pub struct HelpBar {
    pub input_mode: InputMode,
}

impl HelpBar {
    pub fn new(input_mode: InputMode) -> (r: HelpBar)
        ensures
            r.input_mode == input_mode,
    {
        HelpBar { input_mode }
    }
}

/// The message composition box.
#[derive(Debug)]
pub struct MessageInputBox {
    pub content: String,
    pub input_mode: InputMode,
    pub can_send: bool,
}

impl MessageInputBox {
    pub fn new(content: String, input_mode: InputMode, can_send: bool) -> (r: MessageInputBox)
        ensures
            r.content == content,
            r.input_mode == input_mode,
            r.can_send == can_send,
    {
        MessageInputBox { content, input_mode, can_send }
    }
}

/// The room sidebar listing.
#[derive(Debug)]
pub struct RoomList {
    pub rooms: Vec<String>,
    pub current_room: Option<String>,
    pub is_focused: bool,
}

impl RoomList {
    pub fn new(rooms: Vec<String>, current_room: Option<String>) -> (r: RoomList)
        ensures
            r.rooms == rooms,
            r.current_room == current_room,
            !r.is_focused,
    {
        RoomList { rooms, current_room, is_focused: false }
    }

    pub fn focused(self, is_focused: bool) -> (r: RoomList)
        ensures
            r.rooms == self.rooms,
            r.current_room == self.current_room,
            r.is_focused == is_focused,
    {
        RoomList { is_focused, ..self }
    }
}

/// The member sidebar listing.
#[derive(Debug)]
pub struct UserList {
    pub users: Vec<String>,
    pub current_username: String,
}

impl UserList {
    pub fn new(users: Vec<String>, current_username: String) -> (r: UserList)
        ensures
            r.users == users,
            r.current_username == current_username,
    {
        UserList { users, current_username }
    }
}

} // verus!
