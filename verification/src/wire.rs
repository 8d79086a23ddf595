//! The structured line protocol spoken to non-interactive clients:
//! `CHAT|<timestamp>|<sender>|<color>|<content>`, `SYSTEM|<content>`,
//! `USER_LIST|<comma-separated names>`.
use crate::clock::{format_timestamp, timestamp_text};
use crate::message::ChatMessage;
use crate::text::{find_char, starts_with, starts_with_spec};
use vstd::prelude::*;

verus! {

/// `s` contains no field separator.
pub open spec fn no_pipe(s: Seq<char>) -> bool {
    forall|i: int| 0 <= i < s.len() ==> s[i] != '|'
}

/// The chat wire line for the given fields.
pub open spec fn chat_line_spec(
    ts: Seq<char>,
    sender: Seq<char>,
    color: Seq<char>,
    content: Seq<char>,
) -> Seq<char> {
    "CHAT|"@ + ts + "|"@ + sender + "|"@ + color + "|"@ + content
}

/// One event read from a wire line.
#[derive(Debug)]
pub enum WireEvent {
    Chat { timestamp_text: String, sender: String, color: String, content: String },
    System { content: String },
    UserList { names: String },
}

/// Everything `parse_wire_line` promises of its result.
pub open spec fn parse_wire_post(line: Seq<char>, r: Option<WireEvent>) -> bool {
    &&& (r matches Some(WireEvent::Chat { timestamp_text, sender, color, content }) ==> line
        == chat_line_spec(timestamp_text@, sender@, color@, content@) && no_pipe(timestamp_text@)
        && no_pipe(sender@) && no_pipe(color@))
    &&& (forall|ts: Seq<char>, s: Seq<char>, c: Seq<char>, t: Seq<char>|
        line == chat_line_spec(ts, s, c, t) && no_pipe(ts) && no_pipe(s) && no_pipe(c) ==> (
        r matches Some(WireEvent::Chat { timestamp_text, sender, color, content })
            && timestamp_text@ == ts && sender@ == s && color@ == c && content@ == t))
    &&& (r matches Some(WireEvent::System { content }) ==> line == "SYSTEM|"@ + content@)
    &&& (forall|t: Seq<char>|
        line == "SYSTEM|"@ + t ==> (r matches Some(WireEvent::System { content }) && content@
            == t))
    &&& (r matches Some(WireEvent::UserList { names }) ==> line == "USER_LIST|"@ + names@)
    &&& (forall|t: Seq<char>|
        line == "USER_LIST|"@ + t ==> (r matches Some(WireEvent::UserList { names }) && names@
            == t))
}

/// The wire line announcing a chat message; its first four fields never
/// contain the separator, so a reader can split it back apart.
pub fn chat_wire_line(msg: &ChatMessage) -> (r: String)
    requires
        msg.wf(),
    ensures
        r@ == chat_line_spec(
            timestamp_text(msg.timestamp),
            msg.sender_name@,
            msg.color@,
            msg.content@,
        ),
        no_pipe(timestamp_text(msg.timestamp)),
{
    let ts = format_timestamp(msg.timestamp);
    let mut out = String::from_str("CHAT|");
    out.append(ts.as_str());
    out.append("|");
    out.append(msg.sender_name.as_str());
    out.append("|");
    out.append(msg.color.as_str());
    out.append("|");
    out.append(msg.content.as_str());
    out
}

/// The wire line announcing a server message.
pub fn system_wire_line(content: &str) -> (r: String)
    ensures
        r@ == "SYSTEM|"@ + content@,
{
    let mut out = String::from_str("SYSTEM|");
    out.append(content);
    out
}

/// The wire line carrying a room's member names, already joined with
/// commas.
pub fn user_list_wire_line(names: &str) -> (r: String)
    ensures
        r@ == "USER_LIST|"@ + names@,
{
    let mut out = String::from_str("USER_LIST|");
    out.append(names);
    out
}

/// Splits one wire line back into an event. A chat line must carry all
/// four fields; the content field alone may contain the separator.
pub fn parse_wire_line(line: &str) -> (r: Option<WireEvent>)
    ensures
        parse_wire_post(line@, r),
{
    proof {
        reveal_strlit("CHAT|");
        reveal_strlit("|");
        reveal_strlit("SYSTEM|");
        reveal_strlit("USER_LIST|");
        assert("CHAT|"@.len() == 5 && "CHAT|"@[0] == 'C' && "CHAT|"@[4] == '|');
        assert("SYSTEM|"@.len() == 7 && "SYSTEM|"@[0] == 'S');
        assert("USER_LIST|"@.len() == 10 && "USER_LIST|"@[0] == 'U');
    }
    let n = line.unicode_len();
    if starts_with(line, "CHAT|") {
        let rest = line.substring_char(5, n);
        proof {
            assert(rest@ =~= line@.subrange(5, n as int));
        }
        let rn = rest.unicode_len();
        let p1 = match find_char(rest, '|') {
            Some(i) => i,
            None => {
                proof {
                    lemma_chat_shape_refuted(line@, rest@);
                }
                return None;
            },
        };
        let ts = rest.substring_char(0, p1);
        let rest2 = rest.substring_char(p1 + 1, rn);
        let p2 = match find_char(rest2, '|') {
            Some(i) => i,
            None => {
                proof {
                    lemma_chat_shape_refuted2(line@, rest@, p1 as int, rest2@);
                }
                return None;
            },
        };
        let sender = rest2.substring_char(0, p2);
        let rest3 = rest2.substring_char(p2 + 1, rest2.unicode_len());
        let p3 = match find_char(rest3, '|') {
            Some(i) => i,
            None => {
                proof {
                    lemma_chat_shape_refuted3(
                        line@,
                        rest@,
                        p1 as int,
                        rest2@,
                        p2 as int,
                        rest3@,
                    );
                }
                return None;
            },
        };
        let color = rest3.substring_char(0, p3);
        let content = rest3.substring_char(p3 + 1, rest3.unicode_len());
        let ev = WireEvent::Chat {
            timestamp_text: String::from_str(ts),
            sender: String::from_str(sender),
            color: String::from_str(color),
            content: String::from_str(content),
        };
        proof {
            assert(line@ =~= chat_line_spec(ts@, sender@, color@, content@));
            lemma_chat_decomposition_unique(line@, ts@, sender@, color@, content@);
        }
        Some(ev)
    } else if starts_with(line, "SYSTEM|") {
        let content = line.substring_char(7, n);
        proof {
            assert(line@ =~= "SYSTEM|"@ + content@);
            assert forall|t: Seq<char>| line@ == "SYSTEM|"@ + t implies t == content@ by {
                assert(t =~= content@);
            }
            assert forall|ts: Seq<char>, s: Seq<char>, c: Seq<char>, t: Seq<char>|
                line@ == chat_line_spec(ts, s, c, t) implies false by {
                assert(chat_line_spec(ts, s, c, t)[0] == 'C');
            }
            assert forall|t: Seq<char>| line@ == "USER_LIST|"@ + t implies false by {
                assert(("USER_LIST|"@ + t)[0] == 'U');
            }
        }
        Some(WireEvent::System { content: String::from_str(content) })
    } else if starts_with(line, "USER_LIST|") {
        let names = line.substring_char(10, n);
        proof {
            assert(line@ =~= "USER_LIST|"@ + names@);
            assert forall|t: Seq<char>| line@ == "USER_LIST|"@ + t implies t == names@ by {
                assert(t =~= names@);
            }
            assert forall|ts: Seq<char>, s: Seq<char>, c: Seq<char>, t: Seq<char>|
                line@ == chat_line_spec(ts, s, c, t) implies false by {
                assert(chat_line_spec(ts, s, c, t)[0] == 'C');
            }
            assert forall|t: Seq<char>| line@ == "SYSTEM|"@ + t implies false by {
                assert(("SYSTEM|"@ + t)[0] == 'S');
            }
        }
        Some(WireEvent::UserList { names: String::from_str(names) })
    } else {
        proof {
            assert forall|ts: Seq<char>, s: Seq<char>, c: Seq<char>, t: Seq<char>|
                line@ == chat_line_spec(ts, s, c, t) implies false by {
                assert(line@.subrange(0, 5) =~= "CHAT|"@);
            }
            assert forall|t: Seq<char>| line@ == "SYSTEM|"@ + t implies false by {
                assert(line@.subrange(0, 7) =~= "SYSTEM|"@);
            }
            assert forall|t: Seq<char>| line@ == "USER_LIST|"@ + t implies false by {
                assert(line@.subrange(0, 10) =~= "USER_LIST|"@);
            }
        }
        None
    }
}

/// A line whose tail after `CHAT|` holds no separator is no chat line.
proof fn lemma_chat_shape_refuted(line: Seq<char>, rest: Seq<char>)
    requires
        starts_with_spec(line, "CHAT|"@),
        "CHAT|"@.len() == 5,
        rest == line.subrange(5, line.len() as int),
        forall|k: int| 0 <= k < rest.len() ==> rest[k] != '|',
    ensures
        forall|ts: Seq<char>, s: Seq<char>, c: Seq<char>, t: Seq<char>|
            line != chat_line_spec(ts, s, c, t),
{
    reveal_strlit("|");
    assert("|"@.len() == 1);
    assert forall|ts: Seq<char>, s: Seq<char>, c: Seq<char>, t: Seq<char>|
        line != chat_line_spec(ts, s, c, t) by {
        if line == chat_line_spec(ts, s, c, t) {
            assert(rest =~= ts + "|"@ + s + "|"@ + c + "|"@ + t);
            assert(rest[ts.len() as int] == '|');
        }
    }
}

/// A chat tail with only one separator left is no chat line either.
proof fn lemma_chat_shape_refuted2(line: Seq<char>, rest: Seq<char>, p1: int, rest2: Seq<char>)
    requires
        starts_with_spec(line, "CHAT|"@),
        "CHAT|"@.len() == 5,
        rest == line.subrange(5, line.len() as int),
        0 <= p1 < rest.len(),
        rest[p1] == '|',
        forall|k: int| 0 <= k < p1 ==> rest[k] != '|',
        rest2 == rest.subrange(p1 + 1, rest.len() as int),
        forall|k: int| 0 <= k < rest2.len() ==> rest2[k] != '|',
    ensures
        forall|ts: Seq<char>, s: Seq<char>, c: Seq<char>, t: Seq<char>|
            !(line == chat_line_spec(ts, s, c, t) && no_pipe(ts)),
{
    reveal_strlit("|");
    assert("|"@.len() == 1);
    assert forall|ts: Seq<char>, s: Seq<char>, c: Seq<char>, t: Seq<char>|
        !(line == chat_line_spec(ts, s, c, t) && no_pipe(ts)) by {
        if line == chat_line_spec(ts, s, c, t) && no_pipe(ts) {
            assert(rest =~= ts + "|"@ + s + "|"@ + c + "|"@ + t);
            assert(rest[ts.len() as int] == '|');
            assert(p1 == ts.len()) by {
                if p1 < ts.len() {
                    assert(rest[p1] == ts[p1]);
                }
            }
            assert(rest2 =~= s + "|"@ + c + "|"@ + t);
            assert(rest2[s.len() as int] == '|');
        }
    }
}

/// A chat tail with only two separators is no chat line either.
proof fn lemma_chat_shape_refuted3(
    line: Seq<char>,
    rest: Seq<char>,
    p1: int,
    rest2: Seq<char>,
    p2: int,
    rest3: Seq<char>,
)
    requires
        starts_with_spec(line, "CHAT|"@),
        "CHAT|"@.len() == 5,
        rest == line.subrange(5, line.len() as int),
        0 <= p1 < rest.len(),
        rest[p1] == '|',
        forall|k: int| 0 <= k < p1 ==> rest[k] != '|',
        rest2 == rest.subrange(p1 + 1, rest.len() as int),
        0 <= p2 < rest2.len(),
        rest2[p2] == '|',
        forall|k: int| 0 <= k < p2 ==> rest2[k] != '|',
        rest3 == rest2.subrange(p2 + 1, rest2.len() as int),
        forall|k: int| 0 <= k < rest3.len() ==> rest3[k] != '|',
    ensures
        forall|ts: Seq<char>, s: Seq<char>, c: Seq<char>, t: Seq<char>|
            !(line == chat_line_spec(ts, s, c, t) && no_pipe(ts) && no_pipe(s)),
{
    reveal_strlit("|");
    assert("|"@.len() == 1);
    assert forall|ts: Seq<char>, s: Seq<char>, c: Seq<char>, t: Seq<char>|
        !(line == chat_line_spec(ts, s, c, t) && no_pipe(ts) && no_pipe(s)) by {
        if line == chat_line_spec(ts, s, c, t) && no_pipe(ts) && no_pipe(s) {
            assert(rest =~= ts + "|"@ + s + "|"@ + c + "|"@ + t);
            assert(rest[ts.len() as int] == '|');
            assert(p1 == ts.len()) by {
                if p1 < ts.len() {
                    assert(rest[p1] == ts[p1]);
                }
            }
            assert(rest2 =~= s + "|"@ + c + "|"@ + t);
            assert(rest2[s.len() as int] == '|');
            assert(p2 == s.len()) by {
                if p2 < s.len() {
                    assert(rest2[p2] == s[p2]);
                }
            }
            assert(rest3 =~= c + "|"@ + t);
            assert(rest3[c.len() as int] == '|');
        }
    }
}

/// A chat line splits into its four fields in exactly one way, because the
/// first three fields never contain the separator.
proof fn lemma_chat_decomposition_unique(
    line: Seq<char>,
    ts: Seq<char>,
    s: Seq<char>,
    c: Seq<char>,
    t: Seq<char>,
)
    requires
        line == chat_line_spec(ts, s, c, t),
        no_pipe(ts),
        no_pipe(s),
        no_pipe(c),
        "CHAT|"@.len() == 5,
    ensures
        forall|ts2: Seq<char>, s2: Seq<char>, c2: Seq<char>, t2: Seq<char>|
            line == chat_line_spec(ts2, s2, c2, t2) && no_pipe(ts2) && no_pipe(s2) && no_pipe(c2)
                ==> ts2 == ts && s2 == s && c2 == c && t2 == t,
{
    reveal_strlit("|");
    assert("|"@.len() == 1);
    assert forall|ts2: Seq<char>, s2: Seq<char>, c2: Seq<char>, t2: Seq<char>|
        line == chat_line_spec(ts2, s2, c2, t2) && no_pipe(ts2) && no_pipe(s2) && no_pipe(c2)
            implies ts2 == ts && s2 == s && c2 == c && t2 == t by {
        let rest = line.subrange(5, line.len() as int);
        assert(rest =~= ts + "|"@ + s + "|"@ + c + "|"@ + t);
        assert(rest =~= ts2 + "|"@ + s2 + "|"@ + c2 + "|"@ + t2);
        assert(ts2 == ts) by {
            if ts2.len() < ts.len() {
                assert(rest[ts2.len() as int] == '|');
                assert(rest[ts2.len() as int] == ts[ts2.len() as int]);
            } else if ts.len() < ts2.len() {
                assert(rest[ts.len() as int] == '|');
                assert(rest[ts.len() as int] == ts2[ts.len() as int]);
            }
            assert(ts2.len() == ts.len());
            assert forall|k: int| 0 <= k < ts.len() implies ts2[k] == ts[k] by {
                assert((ts + "|"@ + s + "|"@ + c + "|"@ + t)[k] == ts[k]);
                assert((ts2 + "|"@ + s2 + "|"@ + c2 + "|"@ + t2)[k] == ts2[k]);
            }
            assert(ts2 =~= ts);
        }
        let rest2 = rest.subrange(ts.len() as int + 1, rest.len() as int);
        assert(rest2 =~= s + "|"@ + c + "|"@ + t);
        assert(rest2 =~= s2 + "|"@ + c2 + "|"@ + t2);
        assert(s2 == s) by {
            if s2.len() < s.len() {
                assert(rest2[s2.len() as int] == '|');
                assert(rest2[s2.len() as int] == s[s2.len() as int]);
            } else if s.len() < s2.len() {
                assert(rest2[s.len() as int] == '|');
                assert(rest2[s.len() as int] == s2[s.len() as int]);
            }
            assert(s2.len() == s.len());
            assert forall|k: int| 0 <= k < s.len() implies s2[k] == s[k] by {
                assert((s + "|"@ + c + "|"@ + t)[k] == s[k]);
                assert((s2 + "|"@ + c2 + "|"@ + t2)[k] == s2[k]);
            }
            assert(s2 =~= s);
        }
        let rest3 = rest2.subrange(s.len() as int + 1, rest2.len() as int);
        assert(rest3 =~= c + "|"@ + t);
        assert(rest3 =~= c2 + "|"@ + t2);
        assert(c2 == c) by {
            if c2.len() < c.len() {
                assert(rest3[c2.len() as int] == '|');
                assert(rest3[c2.len() as int] == c[c2.len() as int]);
            } else if c.len() < c2.len() {
                assert(rest3[c.len() as int] == '|');
                assert(rest3[c.len() as int] == c2[c.len() as int]);
            }
            assert(c2.len() == c.len());
            assert forall|k: int| 0 <= k < c.len() implies c2[k] == c[k] by {
                assert((c + "|"@ + t)[k] == c[k]);
                assert((c2 + "|"@ + t2)[k] == c2[k]);
            }
            assert(c2 =~= c);
        }
        assert(t2.len() == t.len());
        assert forall|k: int| 0 <= k < t.len() implies t2[k] == t[k] by {
            assert((c + "|"@ + t)[c.len() + 1 + k] == t[k]);
            assert((c2 + "|"@ + t2)[c2.len() + 1 + k] == t2[k]);
        }
        assert(t2 =~= t);
    }
}

/// Round trip: a chat wire line built from pipe-free fields parses back to
/// exactly those fields — the sender, colour and content of the message,
/// and its timestamp at second resolution.
pub proof fn lemma_chat_wire_round_trip(
    ts: Seq<char>,
    sender: Seq<char>,
    color: Seq<char>,
    content: Seq<char>,
    line: Seq<char>,
    r: Option<WireEvent>,
)
    requires
        no_pipe(ts),
        no_pipe(sender),
        no_pipe(color),
        line == chat_line_spec(ts, sender, color, content),
        parse_wire_post(line, r),
    ensures
        r matches Some(
            WireEvent::Chat { timestamp_text: ts2, sender: s2, color: c2, content: t2 },
        ) && ts2@ == ts && s2@ == sender && c2@ == color && t2@ == content,
{
}

} // verus!
