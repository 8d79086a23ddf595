//! Chat messages: the value every session publishes on the broadcast bus.
use crate::clock::{current_timestamp, MAX_TIMESTAMP};
use crate::text::join_spec;
use crate::user_color::{user_color_spec, ColorGenerator};
use crate::Addr;
use vstd::prelude::*;
use vstd::string::StringSliceAdditionalSpecFns;
use vstd::utf8::encode_utf8;

verus! {

/// The hex colour assigned to a display name.
pub open spec fn user_color_of_name(name: Seq<char>) -> Seq<char> {
    user_color_spec(encode_utf8(name))
}

/// The kinds of message carried on the broadcast bus.
#[derive(Clone, Copy, Debug, PartialEq, Eq, Structural)]
pub enum MessageType {
    Chat,
    Whisper,
    System,
    Command,
    UserList,
    RoomList,
    RoomJoin,
}

/// One message on the bus; never changed once constructed.
#[derive(Clone, Debug)]
pub struct ChatMessage {
    pub content: String,
    pub sender_addr: Addr,
    pub sender_name: String,
    pub room: String,
    pub message_type: MessageType,
    pub target: Option<Addr>,
    pub color: String,
    pub timestamp: u64,
}

impl ChatMessage {
    /// Every constructed message carries a timestamp the formatter accepts.
    pub open spec fn wf(self) -> bool {
        self.timestamp <= MAX_TIMESTAMP
    }

    /// A room chat message from a named user, stamped with the current time
    /// and the sender's assigned colour.
    pub fn new(content: String, sender_addr: Addr, sender_name: String, room: String) -> (m: Self)
        ensures
            m.wf(),
            m.content == content,
            m.sender_addr == sender_addr,
            m.sender_name == sender_name,
            m.room == room,
            m.message_type == MessageType::Chat,
            m.target is None,
            m.color@ == user_color_of_name(sender_name@),
    {
        let color = ColorGenerator::generate_user_color(sender_name.as_str());
        Self {
            content,
            sender_addr,
            sender_name,
            room,
            message_type: MessageType::Chat,
            target: None,
            color,
            timestamp: current_timestamp(),
        }
    }

    /// An announcement from the server itself to a room.
    pub fn system(content: String, room: String) -> (m: Self)
        ensures
            m.wf(),
            m.content == content,
            m.sender_addr == 0,
            m.sender_name@ == "SYSTEM"@,
            m.room == room,
            m.message_type == MessageType::System,
            m.target is None,
            m.color@ == "#808080"@,
    {
        Self {
            content,
            sender_addr: 0,
            sender_name: String::from_str("SYSTEM"),
            room,
            message_type: MessageType::System,
            target: None,
            color: String::from_str("#808080"),
            timestamp: current_timestamp(),
        }
    }

    /// A private message addressed to exactly one connection.
    pub fn whisper(content: String, sender_addr: Addr, sender_name: String, target: Addr) -> (m:
        Self)
        ensures
            m.wf(),
            m.content == content,
            m.sender_addr == sender_addr,
            m.sender_name == sender_name,
            m.room@ == "private"@,
            m.message_type == MessageType::Whisper,
            m.target == Some(target),
            m.color@ == user_color_of_name(sender_name@),
    {
        let color = ColorGenerator::generate_user_color(sender_name.as_str());
        Self {
            content,
            sender_addr,
            sender_name,
            room: String::from_str("private"),
            message_type: MessageType::Whisper,
            target: Some(target),
            color,
            timestamp: current_timestamp(),
        }
    }

    /// The names of a room's members, joined with commas, as an
    /// out-of-band update for structured clients.
    pub fn user_list(users: Vec<String>, room: String) -> (m: Self)
        ensures
            m.wf(),
            m.content@ == join_spec(users.deep_view(), ","@),
            m.sender_addr == 0,
            m.sender_name@ == "SYSTEM"@,
            m.room == room,
            m.message_type == MessageType::UserList,
            m.target is None,
            m.color@ == "#808080"@,
    {
        let content = crate::text::join_strings(&users, ",");
        Self {
            content,
            sender_addr: 0,
            sender_name: String::from_str("SYSTEM"),
            room,
            message_type: MessageType::UserList,
            target: None,
            color: String::from_str("#808080"),
            timestamp: current_timestamp(),
        }
    }

    /// The names of the rooms now open, joined with commas.
    pub fn room_list(rooms: Vec<String>) -> (m: Self)
        ensures
            m.wf(),
            m.content@ == join_spec(rooms.deep_view(), ","@),
            m.sender_addr == 0,
            m.sender_name@ == "SYSTEM"@,
            m.room@ == "system"@,
            m.message_type == MessageType::RoomList,
            m.target is None,
            m.color@ == "#808080"@,
    {
        let content = crate::text::join_strings(&rooms, ",");
        Self {
            content,
            sender_addr: 0,
            sender_name: String::from_str("SYSTEM"),
            room: String::from_str("system"),
            message_type: MessageType::RoomList,
            target: None,
            color: String::from_str("#808080"),
            timestamp: current_timestamp(),
        }
    }

    /// Notice to one connection that it has entered a room.
    pub fn room_joined(room_name: String, addr: Addr) -> (m: Self)
        ensures
            m.wf(),
            m.content == room_name,
            m.sender_addr == addr,
            m.sender_name@ == "SYSTEM"@,
            m.room == room_name,
            m.message_type == MessageType::RoomJoin,
            m.target == Some(addr),
            m.color@ == "#808080"@,
    {
        let content = room_name.clone();
        Self {
            content,
            sender_addr: addr,
            sender_name: String::from_str("SYSTEM"),
            room: room_name,
            message_type: MessageType::RoomJoin,
            target: Some(addr),
            color: String::from_str("#808080"),
            timestamp: current_timestamp(),
        }
    }
}

} // verus!
