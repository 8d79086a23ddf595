//! The terminal client's state: which page is shown, what is being typed,
//! which room is current, and the messages received so far.
use crate::message::ChatMessage;
use crate::text::str_eq;
use vstd::prelude::*;

verus! {

#[derive(Debug, Clone, PartialEq)]
pub enum AppPage {
    Connection,
    Chat,
}

#[derive(Debug, Clone, PartialEq)]
pub enum InputMode {
    Normal,
    Editing,
}

#[derive(Clone, Debug, PartialEq)]
pub enum ConnectionStatus {
    Disconnected,
    Connecting,
    Connected,
    Error(String),
}

#[derive(Debug, Clone, PartialEq)]
pub enum FocusedField {
    ServerAddress,
    Username,
    ConnectButton,
    MessageInput,
    MessageList,
}

/// `s` with every trailing lock marker removed: room names are listed
/// with a trailing lock when they are password protected.
pub open spec fn drop_trailing_locks(s: Seq<char>) -> Seq<char>
    decreases s.len(),
{
    if s.len() > 0 && s.last() == '\u{1f512}' {
        drop_trailing_locks(s.drop_last())
    } else {
        s
    }
}

/// A copy of `s` without its trailing lock markers.
pub fn strip_lock_suffix(s: &str) -> (r: String)
    ensures
        r@ == drop_trailing_locks(s@),
{
    let n = s.unicode_len();
    let mut b: usize = n;
    proof {
        assert(s@.subrange(0, n as int) =~= s@);
    }
    while b > 0 && s.get_char(b - 1) == '\u{1f512}'
        invariant
            b <= n,
            n == s@.len(),
            drop_trailing_locks(s@.subrange(0, b as int)) == drop_trailing_locks(s@),
        decreases b,
    {
        proof {
            let cur = s@.subrange(0, b as int);
            assert(cur.last() == s@[b - 1]);
            assert(cur.drop_last() =~= s@.subrange(0, b - 1));
        }
        b -= 1;
    }
    proof {
        let cur = s@.subrange(0, b as int);
        if b > 0 {
            assert(cur.last() == s@[b - 1]);
        }
        assert(drop_trailing_locks(cur) == cur);
    }
    String::from_str(s.substring_char(0, b))
}

/// `p` is the first position in the listing whose entry, without lock
/// markers, reads `cur`.
pub open spec fn first_room_match(rooms: Seq<String>, cur: Seq<char>, p: int) -> bool {
    &&& 0 <= p < rooms.len()
    &&& drop_trailing_locks(rooms[p]@) == cur
    &&& forall|k: int| 0 <= k < p ==> drop_trailing_locks((#[trigger] rooms[k])@) != cur
}

/// At most one position is the first match.
proof fn lemma_first_room_match_unique(rooms: Seq<String>, cur: Seq<char>, p: int)
    requires
        first_room_match(rooms, cur, p),
    ensures
        forall|q: int| first_room_match(rooms, cur, q) ==> q == p,
{
    assert forall|q: int| first_room_match(rooms, cur, q) implies q == p by {
        if q < p {
            assert(drop_trailing_locks(rooms[q]@) != cur);
        } else if p < q {
            assert(drop_trailing_locks(rooms[p]@) != cur);
        }
    }
}

/// The whole client state. The connection handle itself lives with the
/// I/O shell; this state only records whether it is connected.
pub struct AppState {
    pub current_page: AppPage,
    pub should_quit: bool,
    pub server_address: String,
    pub username: String,
    pub connection_status: ConnectionStatus,
    pub messages: Vec<ChatMessage>,
    pub message_input: String,
    pub input_mode: InputMode,
    pub scroll_offset: usize,
    pub available_rooms: Vec<String>,
    pub current_room: Option<String>,
    pub users_in_room: Vec<String>,
    pub focused_field: FocusedField,
}

impl Default for AppState {
    /// The state a freshly started client shows: the connection page, the
    /// default server address, and "general" as the only known room.
    fn default() -> (r: AppState)
        ensures
            r.current_page is Connection,
            !r.should_quit,
            r.server_address@ == "127.0.0.1:4556"@,
            r.username@ == Seq::<char>::empty(),
            r.connection_status is Disconnected,
            r.messages@ == Seq::<ChatMessage>::empty(),
            r.message_input@ == Seq::<char>::empty(),
            r.input_mode is Normal,
            r.scroll_offset == 0,
            r.available_rooms.deep_view() == seq!["general"@],
            (r.current_room matches Some(c) && c@ == "general"@),
            r.users_in_room@ == Seq::<String>::empty(),
            r.focused_field is ServerAddress,
    {
        let mut rooms: Vec<String> = Vec::new();
        rooms.push(String::from_str("general"));
        let r = AppState {
            current_page: AppPage::Connection,
            should_quit: false,
            server_address: String::from_str("127.0.0.1:4556"),
            username: String::new(),
            connection_status: ConnectionStatus::Disconnected,
            messages: Vec::new(),
            message_input: String::new(),
            input_mode: InputMode::Normal,
            scroll_offset: 0,
            available_rooms: rooms,
            current_room: Some(String::from_str("general")),
            users_in_room: Vec::new(),
            focused_field: FocusedField::ServerAddress,
        };
        proof {
            assert(r.messages@ =~= Seq::<ChatMessage>::empty());
            assert(r.users_in_room@ =~= Seq::<String>::empty());
            assert(r.available_rooms.deep_view() =~= seq!["general"@]);
        }
        r
    }
}

impl AppState {
    pub fn new() -> (r: AppState)
        ensures
            r.current_page is Connection,
            !r.should_quit,
            r.server_address@ == "127.0.0.1:4556"@,
            r.username@ == Seq::<char>::empty(),
            r.connection_status is Disconnected,
            r.messages@ == Seq::<ChatMessage>::empty(),
            r.message_input@ == Seq::<char>::empty(),
            r.input_mode is Normal,
            r.scroll_offset == 0,
            r.available_rooms.deep_view() == seq!["general"@],
            (r.current_room matches Some(c) && c@ == "general"@),
            r.users_in_room@ == Seq::<String>::empty(),
            r.focused_field is ServerAddress,
    {
        Self::default()
    }

    pub fn is_connected(&self) -> (r: bool)
        ensures
            r == (self.connection_status is Connected),
    {
        matches!(self.connection_status, ConnectionStatus::Connected)
    }

    /// A message can go out only while connected and only when the input
    /// holds more than whitespace.
    pub fn can_send_message(&self) -> (r: bool)
        ensures
            r == (self.connection_status is Connected && crate::text::trim_spec(
                self.message_input@,
            ).len() > 0),
    {
        let t = crate::text::trim(self.message_input.as_str());
        self.is_connected() && t.as_str().unicode_len() > 0
    }

    /// Appends a received message and snaps the view back to the newest.
    pub fn add_message(&mut self, msg: ChatMessage)
        ensures
            final(self).messages@ == old(self).messages@.push(msg),
            final(self).scroll_offset == 0,
            final(self).current_room == old(self).current_room,
            final(self).username == old(self).username,
    {
        self.messages.push(msg);
        self.scroll_offset = 0;
    }

    pub fn clear_input(&mut self)
        ensures
            final(self).message_input@ == Seq::<char>::empty(),
            final(self).messages == old(self).messages,
            final(self).current_room == old(self).current_room,
    {
        self.message_input = String::new();
    }

    pub fn change_room(&mut self, room: String)
        ensures
            final(self).current_room == Some(room),
            final(self).scroll_offset == 0,
            final(self).messages == old(self).messages,
    {
        self.current_room = Some(room);
        self.scroll_offset = 0;
    }

    /// The name of the current room, "general" when none is set.
    pub open spec fn current_room_name(self) -> Seq<char> {
        match self.current_room {
            Some(c) => c@,
            None => "general"@,
        }
    }

    /// The current room's name, "general" when none is set.
    pub fn get_current_room(&self) -> (r: &str)
        ensures
            r@ == self.current_room_name(),
    {
        match &self.current_room {
            Some(room) => room.as_str(),
            None => "general",
        }
    }

    /// The position in the room list whose entry, without lock markers,
    /// names the current room.
    fn current_room_position(&self) -> (r: Option<usize>)
        ensures
            match r {
                Some(i) => first_room_match(
                    self.available_rooms@,
                    self.current_room_name(),
                    i as int,
                ),
                None => forall|k: int|
                    0 <= k < self.available_rooms@.len() ==> drop_trailing_locks(
                        (#[trigger] self.available_rooms@[k])@,
                    ) != self.current_room_name(),
            },
    {
        let current = self.get_current_room();
        let n = self.available_rooms.len();
        let mut i: usize = 0;
        while i < n
            invariant
                i <= n,
                n == self.available_rooms@.len(),
                current@ == self.current_room_name(),
                forall|k: int|
                    0 <= k < i ==> drop_trailing_locks((#[trigger] self.available_rooms@[k])@)
                        != self.current_room_name(),
            decreases n - i,
        {
            let stripped = strip_lock_suffix(self.available_rooms[i].as_str());
            if str_eq(stripped.as_str(), current) {
                proof {
                    assert(stripped@ == drop_trailing_locks(self.available_rooms@[i as int]@));
                }
                return Some(i);
            }
            i += 1;
        }
        None
    }

    /// Moves to the next room in the listing, wrapping at the end; does
    /// nothing when the listing is empty or the current room is not in it.
    pub fn next_room(&mut self)
        ensures
            final(self).messages == old(self).messages,
            final(self).username == old(self).username,
            final(self).available_rooms == old(self).available_rooms,
            forall|p: int|
                first_room_match(
                    old(self).available_rooms@,
                    old(self).current_room_name(),
                    p,
                ) ==> (final(self).current_room matches Some(c) && c@ == drop_trailing_locks(
                    old(self).available_rooms@[if p + 1 == old(self).available_rooms@.len() {
                        0
                    } else {
                        p + 1
                    }]@,
                )),
            (forall|p: int|
                !first_room_match(old(self).available_rooms@, old(self).current_room_name(), p))
                ==> *final(self) == *old(self),
    {
        if self.available_rooms.len() == 0 {
            return ;
        }
        match self.current_room_position() {
            Some(idx) => {
                proof {
                    lemma_first_room_match_unique(
                        self.available_rooms@,
                        self.current_room_name(),
                        idx as int,
                    );
                }
                let next_idx = if idx + 1 == self.available_rooms.len() {
                    0
                } else {
                    idx + 1
                };
                let next = strip_lock_suffix(self.available_rooms[next_idx].as_str());
                self.current_room = Some(next);
            },
            None => {},
        }
    }

    /// Moves to the previous room in the listing, wrapping at the start.
    pub fn previous_room(&mut self)
        ensures
            final(self).messages == old(self).messages,
            final(self).username == old(self).username,
            final(self).available_rooms == old(self).available_rooms,
            forall|p: int|
                first_room_match(
                    old(self).available_rooms@,
                    old(self).current_room_name(),
                    p,
                ) ==> (final(self).current_room matches Some(c) && c@ == drop_trailing_locks(
                    old(self).available_rooms@[if p == 0 {
                        old(self).available_rooms@.len() - 1
                    } else {
                        p - 1
                    }]@,
                )),
            (forall|p: int|
                !first_room_match(old(self).available_rooms@, old(self).current_room_name(), p))
                ==> *final(self) == *old(self),
    {
        if self.available_rooms.len() == 0 {
            return ;
        }
        match self.current_room_position() {
            Some(idx) => {
                proof {
                    lemma_first_room_match_unique(
                        self.available_rooms@,
                        self.current_room_name(),
                        idx as int,
                    );
                }
                let prev_idx = if idx == 0 {
                    self.available_rooms.len() - 1
                } else {
                    idx - 1
                };
                let prev = strip_lock_suffix(self.available_rooms[prev_idx].as_str());
                self.current_room = Some(prev);
            },
            None => {},
        }
    }

    /// Scrolls one line back into history.
    pub fn scroll_up(&mut self)
        ensures
            final(self).scroll_offset == (if old(self).scroll_offset < usize::MAX {
                old(self).scroll_offset + 1
            } else {
                usize::MAX as int
            }),
            final(self).messages == old(self).messages,
    {
        self.scroll_offset = if self.scroll_offset < usize::MAX {
            self.scroll_offset + 1
        } else {
            usize::MAX
        };
    }

    /// Scrolls one line toward the newest message.
    pub fn scroll_down(&mut self)
        ensures
            final(self).scroll_offset == (if old(self).scroll_offset > 0 {
                old(self).scroll_offset - 1
            } else {
                0
            }),
            final(self).messages == old(self).messages,
    {
        self.scroll_offset = if self.scroll_offset > 0 {
            self.scroll_offset - 1
        } else {
            0
        };
    }
}

} // verus!
