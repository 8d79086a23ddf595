//! Rendering messages as terminal text lines.
use crate::colors::{colorize_spec, reset_seq, Colors};
use crate::message::{user_color_of_name, ChatMessage, MessageType};
use crate::text::{two_digits, u64_to_two_digits};
use crate::user_color::{ansi_of_rgb, rgb_of_hex, ColorGenerator};
use vstd::prelude::*;

verus! {

/// A run of `n` blanks.
pub open spec fn spaces(n: nat) -> Seq<char> {
    Seq::new(n, |i: int| ' ')
}

/// `text` padded on the left to `width` characters; text already that wide
/// is returned as it is.
pub open spec fn align_right_spec(text: Seq<char>, width: nat) -> Seq<char> {
    if text.len() >= width {
        text
    } else {
        spaces((width - text.len()) as nat) + text
    }
}

/// The clock time `hh:mm:ss` within the day of a timestamp in seconds.
pub open spec fn time_of_day_text(secs: nat) -> Seq<char> {
    two_digits(secs / 3600 % 24) + ":"@ + two_digits(secs / 60 % 60) + ":"@ + two_digits(secs % 60)
}

/// How one received message is rendered for an interactive terminal;
/// list-style updates are handled out of band and render as nothing.
pub open spec fn format_message_spec(m: ChatMessage) -> Seq<char> {
    let ansi = ({
        let rgb = rgb_of_hex(m.color@);
        ansi_of_rgb(rgb.0, rgb.1, rgb.2)
    });
    match m.message_type {
        MessageType::Chat => "\x1b[1m"@ + "["@ + time_of_day_text(m.timestamp as nat) + "]"@
            + reset_seq() + " "@ + ansi + m.sender_name@ + reset_seq() + ": "@ + m.content@ + "\n"@,
        MessageType::System => "\x1b[93m"@ + "[SYSTEM] "@ + m.content@ + reset_seq() + "\n"@,
        MessageType::Whisper => "\x1b[95m"@ + "[Whisper from "@ + m.sender_name@ + "] "@
            + m.content@ + reset_seq() + "\n"@,
        MessageType::Command => "\x1b[96m"@ + "[Command] "@ + m.content@ + reset_seq() + "\n"@,
        MessageType::UserList => Seq::empty(),
        MessageType::RoomList => Seq::empty(),
        MessageType::RoomJoin => Seq::empty(),
    }
}

/// One line of the user-list rendering: the name in its own colour,
/// indented.
pub open spec fn user_line_spec(name: Seq<char>) -> Seq<char> {
    let rgb = rgb_of_hex(user_color_of_name(name));
    "  "@ + ansi_of_rgb(rgb.0, rgb.1, rgb.2) + name + reset_seq() + "\n"@
}

/// The user-list body, one line per name in order.
pub open spec fn user_lines_spec(names: Seq<Seq<char>>) -> Seq<char>
    decreases names.len(),
{
    if names.len() == 0 {
        Seq::empty()
    } else {
        user_lines_spec(names.drop_last()) + user_line_spec(names.last())
    }
}

pub struct Formatter;

impl Formatter {
    /// `text` padded on the left with blanks to `width` characters.
    pub fn align_right(text: &str, width: usize) -> (r: String)
        ensures
            r@ == align_right_spec(text@, width as nat),
    {
        let len = text.unicode_len();
        if len >= width {
            return String::from_str(text);
        }
        let mut out = String::new();
        let mut i: usize = 0;
        while i < width - len
            invariant
                i <= width - len,
                len == text@.len(),
                len < width,
                out@ == spaces(i as nat),
            decreases width - len - i,
        {
            out.append(" ");
            proof {
                reveal_strlit(" ");
                assert(out@ =~= spaces((i + 1) as nat));
            }
            i += 1;
        }
        out.append(text);
        out
    }

    /// The sender's own line, `You: <message>`, pushed to the right edge.
    pub fn format_own_message(message: &str, terminal_width: usize) -> (r: String)
        ensures
            r@ == align_right_spec("You: "@ + message@, terminal_width as nat),
    {
        let mut full = String::from_str("You: ");
        full.append(message);
        Self::align_right(full.as_str(), terminal_width)
    }

    /// Another sender's line: the name wrapped in its colour, a colon, and
    /// the message.
    pub fn format_other_message(name: &str, message: &str, color: &str) -> (r: String)
        ensures
            r@ == colorize_spec(name@, color@) + ": "@ + message@,
    {
        let colored_name = Colors::colorize(name, color);
        let mut out = colored_name;
        out.append(": ");
        out.append(message);
        out
    }
}

/// The clock time `hh:mm:ss` within the day of `secs`.
pub fn format_time_of_day(secs: u64) -> (r: String)
    ensures
        r@ == time_of_day_text(secs as nat),
{
    let hh = u64_to_two_digits(secs / 3600 % 24);
    let mm = u64_to_two_digits(secs / 60 % 60);
    let ss = u64_to_two_digits(secs % 60);
    let mut out = hh;
    out.append(":");
    out.append(mm.as_str());
    out.append(":");
    out.append(ss.as_str());
    out
}

/// Renders one received message as an interactive terminal line.
pub fn format_message(msg: &ChatMessage) -> (r: String)
    ensures
        r@ == format_message_spec(*msg),
{
    match msg.message_type {
        MessageType::Chat => {
            let tod = format_time_of_day(msg.timestamp);
            let ansi = ColorGenerator::hex_to_ansi(msg.color.as_str());
            let mut out = String::from_str("\x1b[1m");
            out.append("[");
            out.append(tod.as_str());
            out.append("]");
            out.append(Colors::RESET);
            out.append(" ");
            out.append(ansi.as_str());
            out.append(msg.sender_name.as_str());
            out.append(Colors::RESET);
            out.append(": ");
            out.append(msg.content.as_str());
            out.append("\n");
            out
        },
        MessageType::System => {
            let mut out = String::from_str("\x1b[93m");
            out.append("[SYSTEM] ");
            out.append(msg.content.as_str());
            out.append(Colors::RESET);
            out.append("\n");
            out
        },
        MessageType::Whisper => {
            let mut out = String::from_str("\x1b[95m");
            out.append("[Whisper from ");
            out.append(msg.sender_name.as_str());
            out.append("] ");
            out.append(msg.content.as_str());
            out.append(Colors::RESET);
            out.append("\n");
            out
        },
        MessageType::Command => {
            let mut out = String::from_str("\x1b[96m");
            out.append("[Command] ");
            out.append(msg.content.as_str());
            out.append(Colors::RESET);
            out.append("\n");
            out
        },
        MessageType::UserList => String::new(),
        MessageType::RoomList => String::new(),
        MessageType::RoomJoin => String::new(),
    }
}

/// Renders the names in a room, a coloured line for each, under a header.
pub fn format_user_list(users: &Vec<String>) -> (r: String)
    ensures
        r@ == "\x1b[96m"@ + "Users in this room:"@ + reset_seq() + "\n"@ + user_lines_spec(
            users.deep_view(),
        ),
{
    let mut out = String::from_str("\x1b[96m");
    out.append("Users in this room:");
    out.append(Colors::RESET);
    out.append("\n");
    let ghost header = out@;
    let n = users.len();
    let mut i: usize = 0;
    proof {
        assert(user_lines_spec(users.deep_view().subrange(0, 0)) =~= Seq::<char>::empty());
        assert(out@ =~= header + user_lines_spec(users.deep_view().subrange(0, 0)));
    }
    while i < n
        invariant
            i <= n,
            n == users@.len(),
            out@ == header + user_lines_spec(users.deep_view().subrange(0, i as int)),
        decreases n - i,
    {
        let user = &users[i];
        let hex = ColorGenerator::generate_user_color(user.as_str());
        let ansi = ColorGenerator::hex_to_ansi(hex.as_str());
        out.append("  ");
        out.append(ansi.as_str());
        out.append(user.as_str());
        out.append(Colors::RESET);
        out.append("\n");
        proof {
            let dv = users.deep_view();
            let pre = dv.subrange(0, i as int);
            let now = dv.subrange(0, i + 1);
            assert(now.drop_last() =~= pre);
            assert(now.last() == dv[i as int]);
            assert(dv[i as int] == users@[i as int]@);
            assert(out@ =~= header + user_lines_spec(now));
        }
        i += 1;
    }
    proof {
        assert(users.deep_view().subrange(0, n as int) =~= users.deep_view());
    }
    out
}

} // verus!
