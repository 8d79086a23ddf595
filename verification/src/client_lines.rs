//! The client's reading of server lines: stripping ANSI escapes, skipping
//! prompt noise, and turning the human-readable lines back into messages.
use crate::clock::current_timestamp;
use crate::message::{ChatMessage, MessageType};
use crate::text::{contains_spec, contains_str, find_char, starts_with, starts_with_spec, trim,
    trim_spec};
use vstd::prelude::*;

verus! {

pub open spec fn is_ascii_alpha(c: char) -> bool {
    ('a' <= c && c <= 'z') || ('A' <= c && c <= 'Z')
}

/// `s` with ANSI `ESC [ ... letter` sequences removed, scanned left to
/// right; `in_escape` says whether the scan stands inside a sequence.
pub open spec fn strip_ansi_go(s: Seq<char>, in_escape: bool) -> Seq<char>
    decreases s.len(),
{
    if s.len() == 0 {
        Seq::empty()
    } else if in_escape {
        if is_ascii_alpha(s[0]) {
            strip_ansi_go(s.drop_first(), false)
        } else {
            strip_ansi_go(s.drop_first(), true)
        }
    } else if s[0] == '\u{1b}' {
        if s.len() >= 2 && s[1] == '[' {
            strip_ansi_go(s.subrange(2, s.len() as int), true)
        } else {
            strip_ansi_go(s.drop_first(), false)
        }
    } else {
        seq![s[0]] + strip_ansi_go(s.drop_first(), false)
    }
}

/// `s` with ANSI colour and cursor sequences removed.
pub open spec fn strip_ansi(s: Seq<char>) -> Seq<char> {
    strip_ansi_go(s, false)
}

/// Removes ANSI `ESC [ ... letter` sequences from `s`; a bare escape
/// character is dropped too.
pub fn strip_ansi_codes(s: &str) -> (r: String)
    ensures
        r@ == strip_ansi(s@),
{
    let n = s.unicode_len();
    let mut out = String::new();
    let mut i: usize = 0;
    let mut in_escape = false;
    proof {
        assert(s@.subrange(0, n as int) =~= s@);
        assert(out@ + strip_ansi_go(s@.subrange(0, n as int), false) =~= strip_ansi(s@));
    }
    while i < n
        invariant
            i <= n,
            n == s@.len(),
            out@ + strip_ansi_go(s@.subrange(i as int, n as int), in_escape) == strip_ansi(s@),
        decreases n - i,
    {
        let ghost rest = s@.subrange(i as int, n as int);
        let ghost out0 = out@;
        let c = s.get_char(i);
        proof {
            assert(rest[0] == c);
            assert(rest.drop_first() =~= s@.subrange(i + 1, n as int));
        }
        if in_escape {
            let alpha = (c >= 'a' && c <= 'z') || (c >= 'A' && c <= 'Z');
            if alpha {
                in_escape = false;
            }
            i += 1;
        } else if c == '\u{1b}' {
            if i + 1 < n && s.get_char(i + 1) == '[' {
                proof {
                    assert(rest.len() >= 2 && rest[1] == '[');
                    assert(rest.subrange(2, rest.len() as int) =~= s@.subrange(i + 2, n as int));
                }
                in_escape = true;
                i += 2;
            } else {
                proof {
                    if rest.len() >= 2 {
                        assert(rest[1] == s@[i + 1]);
                    }
                }
                i += 1;
            }
        } else {
            out.append(s.substring_char(i, i + 1));
            proof {
                assert(s@.subrange(i as int, i + 1) =~= seq![c]);
                assert(out@ =~= out0 + seq![c]);
                assert(out0 + (seq![c] + strip_ansi_go(rest.drop_first(), false)) =~= out@
                    + strip_ansi_go(rest.drop_first(), false));
            }
            i += 1;
        }
    }
    proof {
        assert(s@.subrange(n as int, n as int) =~= Seq::<char>::empty());
        assert(out@ + Seq::<char>::empty() =~= out@);
    }
    out
}

/// Lines the client ignores: connection prompts, its own feedback lines,
/// and join notices, none of which are chat.
pub open spec fn is_prompt_noise(t: Seq<char>) -> bool {
    ||| contains_spec(t, "Name (press Enter for"@)
    ||| contains_spec(t, "Welcome to Rusty Chat"@)
    ||| contains_spec(t, "Type /help for commands"@)
    ||| starts_with_spec(t, "Name must be"@)
    ||| starts_with_spec(t, "The name is taken"@)
    ||| starts_with_spec(t, "Command executed"@)
    ||| starts_with_spec(t, "Whisper sent"@)
    ||| starts_with_spec(t, "Joined room:"@)
    ||| starts_with_spec(t, "Welcome,"@)
    ||| contains_spec(t, "joined"@)
    ||| contains_spec(t, "Returned to"@)
}

fn prompt_noise(t: &str) -> (r: bool)
    ensures
        r == is_prompt_noise(t@),
{
    contains_str(t, "Name (press Enter for") || contains_str(t, "Welcome to Rusty Chat")
        || contains_str(t, "Type /help for commands") || starts_with(t, "Name must be")
        || starts_with(t, "The name is taken") || starts_with(t, "Command executed")
        || starts_with(t, "Whisper sent") || starts_with(t, "Joined room:") || starts_with(
        t,
        "Welcome,",
    ) || contains_str(t, "joined") || contains_str(t, "Returned to")
}

/// Reads one cleaned server line back into a message for the client's
/// display. Prompt noise and blank lines carry no message; a
/// `[SYSTEM] ...` line becomes a server announcement, a
/// `[Whisper from X] ...` line a whisper, and a `name: text` line a chat
/// message in the client's current room.
pub fn parse_message(line: &str, room: &str) -> (r: Result<ChatMessage, String>)
    ensures
        ({
            let t = trim_spec(line@);
            &&& (t.len() == 0 ==> (r matches Err(e) && e@ == "Empty line"@))
            &&& (t.len() > 0 && is_prompt_noise(t) ==> (r matches Err(e) && e@
                == "System prompt"@))
            &&& (r matches Ok(m) ==> m.wf() && m.room@ == room@ && m.target is None
                && m.sender_addr == 0)
            &&& (t.len() > 0 && !is_prompt_noise(t) && starts_with_spec(t, "[SYSTEM]"@) ==> (
            r matches Ok(m) && m.message_type == MessageType::System && m.sender_name@
                == "System"@ && m.color@ == "#FFA500"@ && m.content@ == trim_spec(
                t.subrange("[SYSTEM]"@.len() as int, t.len() as int),
            )))
            &&& (r matches Ok(m) ==> (m.message_type == MessageType::Whisper ==> starts_with_spec(
                t,
                "[Whisper from"@,
            ) && m.color@ == "#FF00FF"@ && exists|close: int|
                {
                    &&& 14 <= close < t.len()
                    &&& t[close] == ']'
                    &&& (forall|k: int| 0 <= k < close ==> t[k] != ']')
                    &&& m.sender_name@ == t.subrange(14, close)
                    &&& m.content@ == trim_spec(#[trigger] t.subrange(close + 1, t.len() as int))
                }))
            &&& (r matches Ok(m) ==> (m.message_type == MessageType::Chat ==> m.color@
                == "#00FFFF"@ && m.sender_name@.len() > 0 && m.content@.len() > 0 && exists|
                colon: int,
            |
                {
                    &&& 0 < colon < t.len() - 1
                    &&& t[colon] == ':'
                    &&& (forall|k: int| 0 <= k < colon ==> t[k] != ':')
                    &&& m.sender_name@ == trim_spec(#[trigger] t.subrange(0, colon))
                    &&& m.content@ == trim_spec(t.subrange(colon + 1, t.len() as int))
                }))
        }),
{
    let trimmed = trim(line);
    let t = trimmed.as_str();
    let n = t.unicode_len();
    if n == 0 {
        return Err(String::from_str("Empty line"));
    }
    if prompt_noise(t) {
        return Err(String::from_str("System prompt"));
    }
    if starts_with(t, "[SYSTEM]") {
        proof {
            reveal_strlit("[SYSTEM]");
        }
        let content = trim(t.substring_char(8, n));
        let m = ChatMessage {
            content,
            sender_addr: 0,
            sender_name: String::from_str("System"),
            room: String::from_str(room),
            message_type: MessageType::System,
            target: None,
            color: String::from_str("#FFA500"),
            timestamp: current_timestamp(),
        };
        return Ok(m);
    }
    if starts_with(t, "[Whisper from") {
        match find_char(t, ']') {
            Some(close) => {
                if close >= 14 {
                    let sender = t.substring_char(14, close);
                    let content = trim(t.substring_char(close + 1, n));
                    let m = ChatMessage {
                        content,
                        sender_addr: 0,
                        sender_name: String::from_str(sender),
                        room: String::from_str(room),
                        message_type: MessageType::Whisper,
                        target: None,
                        color: String::from_str("#FF00FF"),
                        timestamp: current_timestamp(),
                    };
                    return Ok(m);
                }
            },
            None => {},
        }
        return Err(String::from_str("Unparseable line"));
    }
    match find_char(t, ':') {
        Some(colon) => {
            if colon > 0 && colon < n - 1 {
                let sender = trim(t.substring_char(0, colon));
                let content = trim(t.substring_char(colon + 1, n));
                if sender.as_str().unicode_len() > 0 && content.as_str().unicode_len() > 0 {
                    let m = ChatMessage {
                        content,
                        sender_addr: 0,
                        sender_name: sender,
                        room: String::from_str(room),
                        message_type: MessageType::Chat,
                        target: None,
                        color: String::from_str("#00FFFF"),
                        timestamp: current_timestamp(),
                    };
                    return Ok(m);
                }
            }
        },
        None => {},
    }
    Err(String::from_str("Unparseable line"))
}

/// Scans the lines read back right after a name was sent: the server's
/// rejection notices turn into connection errors.
pub fn check_validation_lines(lines: &Vec<String>) -> (r: Option<String>)
    ensures
        r is None ==> forall|i: int|
            0 <= i < lines@.len() ==> !contains_spec(
                (#[trigger] lines@[i])@,
                "The name is taken"@,
            ) && !contains_spec(lines@[i]@, "must be between"@),
        r matches Some(e) ==> ((e@ == "Username already taken. Please choose another name."@
            && exists|i: int|
            0 <= i < lines@.len() && contains_spec((#[trigger] lines@[i])@, "The name is taken"@))
            || (e@ == "Username must be between 2-20 characters."@ && exists|i: int|
            0 <= i < lines@.len() && contains_spec((#[trigger] lines@[i])@, "must be between"@))),
{
    let n = lines.len();
    let mut i: usize = 0;
    while i < n
        invariant
            i <= n,
            n == lines@.len(),
            forall|k: int|
                0 <= k < i ==> !contains_spec((#[trigger] lines@[k])@, "The name is taken"@)
                    && !contains_spec(lines@[k]@, "must be between"@),
        decreases n - i,
    {
        if contains_str(lines[i].as_str(), "The name is taken") {
            return Some(String::from_str("Username already taken. Please choose another name."));
        }
        if contains_str(lines[i].as_str(), "must be between") {
            return Some(String::from_str("Username must be between 2-20 characters."));
        }
        i += 1;
    }
    None
}

} // verus!
