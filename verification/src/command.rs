//! Slash commands: the pure parser from an input line to a command, and
//! the executor that applies a command against the two registries.
use crate::client_registry::ClientManager;
use crate::message::ChatMessage;
use crate::room_registry::{RoomError, RoomManager};
use crate::text::{dec_digits, join_spec, join_strings, split_whitespace_vec, split_ws,
    starts_with, starts_with_spec, trim, trim_spec, u64_to_string};
use crate::Addr;
use vstd::prelude::*;

verus! {

broadcast use vstd::string::group_string_axioms;

/// A parsed slash command.
#[derive(Debug)]
pub enum CommandResult {
    ChangeNick(String),
    JoinRoom(String, Option<String>),
    CreateRoom(String, Option<String>),
    InviteUser(String, String),
    ListUsers,
    ListRooms,
    Whisper(String, String),
    Quit,
    Help,
    InvalidCommand(String),
}

/// The trimmed line begins with the command prefix `/`.
pub open spec fn is_command_line(input: Seq<char>) -> bool {
    starts_with_spec(trim_spec(input), "/"@)
}

/// The whitespace-separated tokens after the `/` of a trimmed command line.
pub open spec fn cmd_tokens(input: Seq<char>) -> Seq<Seq<char>> {
    let t = trim_spec(input);
    split_ws(t.subrange(1, t.len() as int))
}

/// The token at position `i`, when the line has that many.
pub open spec fn optional_token(toks: Seq<Seq<char>>, i: int) -> Option<Seq<char>> {
    if toks.len() > i {
        Some(toks[i])
    } else {
        None
    }
}

pub struct CommandProcessor;

impl CommandProcessor {
    /// Parses one input line. Lines that do not begin with `/` (after
    /// trimming) are not commands and yield `None`; every other line maps
    /// to exactly one command, `InvalidCommand` standing for unknown verbs
    /// and missing required arguments.
    pub fn parse(input: &str) -> (r: Option<CommandResult>)
        ensures
            r is None <==> !is_command_line(input@),
            is_command_line(input@) ==> ({
                let toks = cmd_tokens(input@);
                &&& (toks.len() == 0 ==> (r matches Some(CommandResult::InvalidCommand(m))
                    && m@ == "Empty command"@))
                &&& (toks.len() > 0 && toks[0] == "nick"@ ==> (if toks.len() >= 2 {
                    r matches Some(CommandResult::ChangeNick(n)) && n@ == toks[1]
                } else {
                    r matches Some(CommandResult::InvalidCommand(m)) && m@
                        == "Usage: /nick <new_name>"@
                }))
                &&& (toks.len() > 0 && toks[0] == "join"@ ==> (if toks.len() >= 2 {
                    r matches Some(CommandResult::JoinRoom(room, pwd)) && room@ == toks[1] && (if
                    toks.len() >= 3 {
                        pwd matches Some(p) && p@ == toks[2]
                    } else {
                        pwd is None
                    })
                } else {
                    r matches Some(CommandResult::InvalidCommand(m)) && m@
                        == "Usage: /join <room> [password]"@
                }))
                &&& (toks.len() > 0 && toks[0] == "create"@ ==> (if toks.len() >= 2 {
                    r matches Some(CommandResult::CreateRoom(room, pwd)) && room@ == toks[1] && (if
                    toks.len() >= 3 {
                        pwd matches Some(p) && p@ == toks[2]
                    } else {
                        pwd is None
                    })
                } else {
                    r matches Some(CommandResult::InvalidCommand(m)) && m@
                        == "Usage: /create <room_name> [password]"@
                }))
                &&& (toks.len() > 0 && toks[0] == "invite"@ ==> (if toks.len() >= 3 {
                    r matches Some(CommandResult::InviteUser(user, room)) && user@ == toks[1]
                        && room@ == toks[2]
                } else {
                    r matches Some(CommandResult::InvalidCommand(m)) && m@
                        == "Usage: /invite <username> <room_name>"@
                }))
                &&& (toks.len() > 0 && toks[0] == "list"@ ==> r matches Some(
                    CommandResult::ListUsers,
                ))
                &&& (toks.len() > 0 && toks[0] == "rooms"@ ==> r matches Some(
                    CommandResult::ListRooms,
                ))
                &&& (toks.len() > 0 && (toks[0] == "whisper"@ || toks[0] == "w"@) ==> (if toks.len()
                    >= 3 {
                    r matches Some(CommandResult::Whisper(target, msg)) && target@ == toks[1]
                        && msg@ == join_spec(toks.subrange(2, toks.len() as int), " "@)
                } else {
                    r matches Some(CommandResult::InvalidCommand(m)) && m@
                        == "Usage: /w <user> <message>"@
                }))
                &&& (toks.len() > 0 && (toks[0] == "quit"@ || toks[0] == "exit"@) ==> r matches Some(
                    CommandResult::Quit,
                ))
                &&& (toks.len() > 0 && (toks[0] == "help"@ || toks[0] == "?"@) ==> r matches Some(
                    CommandResult::Help,
                ))
                &&& (toks.len() > 0 && !Self::known_verb(toks[0]) ==> (r matches Some(
                    CommandResult::InvalidCommand(m),
                ) && m@ == "Unknown command: "@ + toks[0]))
            }),
    {
        proof {
            reveal_strlit("nick");
            reveal_strlit("join");
            reveal_strlit("create");
            reveal_strlit("invite");
            reveal_strlit("list");
            reveal_strlit("rooms");
            reveal_strlit("whisper");
            reveal_strlit("w");
            reveal_strlit("quit");
            reveal_strlit("exit");
            reveal_strlit("help");
            reveal_strlit("?");
            reveal_strlit("/");
            assert("nick"@[0] == 'n');
            assert("join"@[0] == 'j');
            assert("create"@[0] == 'c');
            assert("invite"@[0] == 'i');
            assert("list"@[0] == 'l');
            assert("rooms"@[0] == 'r');
            assert("whisper"@[0] == 'w');
            assert("w"@[0] == 'w');
            assert("quit"@[0] == 'q');
            assert("exit"@[0] == 'e');
            assert("help"@[0] == 'h');
            assert("?"@[0] == '?');
            assert("whisper"@.len() == 7);
            assert("w"@.len() == 1);
            assert("/"@.len() == 1);
        }
        let trimmed = trim(input);
        if !starts_with(trimmed.as_str(), "/") {
            return None;
        }
        let n = trimmed.as_str().unicode_len();
        let rest = trimmed.as_str().substring_char(1, n);
        let tokens = split_whitespace_vec(rest);
        let ghost toks = cmd_tokens(input@);
        proof {
            assert(tokens.deep_view() == toks);
        }
        if tokens.len() == 0 {
            return Some(CommandResult::InvalidCommand(String::from_str("Empty command")));
        }
        let verb = tokens[0].as_str();
        proof {
            assert(tokens.deep_view()[0] == tokens@[0]@);
        }
        if crate::text::str_eq(verb, "nick") {
            if tokens.len() < 2 {
                return Some(
                    CommandResult::InvalidCommand(String::from_str("Usage: /nick <new_name>")),
                );
            }
            proof {
                assert(tokens.deep_view()[1] == tokens@[1]@);
            }
            Some(CommandResult::ChangeNick(tokens[1].clone()))
        } else if crate::text::str_eq(verb, "join") {
            if tokens.len() < 2 {
                return Some(
                    CommandResult::InvalidCommand(
                        String::from_str("Usage: /join <room> [password]"),
                    ),
                );
            }
            proof {
                assert(tokens.deep_view()[1] == tokens@[1]@);
            }
            let room = tokens[1].clone();
            let password = if tokens.len() >= 3 {
                proof {
                    assert(tokens.deep_view()[2] == tokens@[2]@);
                }
                Some(tokens[2].clone())
            } else {
                None
            };
            Some(CommandResult::JoinRoom(room, password))
        } else if crate::text::str_eq(verb, "create") {
            if tokens.len() < 2 {
                return Some(
                    CommandResult::InvalidCommand(
                        String::from_str("Usage: /create <room_name> [password]"),
                    ),
                );
            }
            proof {
                assert(tokens.deep_view()[1] == tokens@[1]@);
            }
            let room = tokens[1].clone();
            let password = if tokens.len() >= 3 {
                proof {
                    assert(tokens.deep_view()[2] == tokens@[2]@);
                }
                Some(tokens[2].clone())
            } else {
                None
            };
            Some(CommandResult::CreateRoom(room, password))
        } else if crate::text::str_eq(verb, "invite") {
            if tokens.len() < 3 {
                return Some(
                    CommandResult::InvalidCommand(
                        String::from_str("Usage: /invite <username> <room_name>"),
                    ),
                );
            }
            proof {
                assert(tokens.deep_view()[1] == tokens@[1]@);
                assert(tokens.deep_view()[2] == tokens@[2]@);
            }
            Some(CommandResult::InviteUser(tokens[1].clone(), tokens[2].clone()))
        } else if crate::text::str_eq(verb, "list") {
            Some(CommandResult::ListUsers)
        } else if crate::text::str_eq(verb, "rooms") {
            Some(CommandResult::ListRooms)
        } else if crate::text::str_eq(verb, "whisper") || crate::text::str_eq(verb, "w") {
            if tokens.len() < 3 {
                return Some(
                    CommandResult::InvalidCommand(String::from_str("Usage: /w <user> <message>")),
                );
            }
            proof {
                assert(tokens.deep_view()[1] == tokens@[1]@);
            }
            let target = tokens[1].clone();
            let mut tail: Vec<String> = Vec::new();
            let mut i: usize = 2;
            while i < tokens.len()
                invariant
                    2 <= i <= tokens@.len(),
                    tail.deep_view() == tokens.deep_view().subrange(2, i as int),
                decreases tokens@.len() - i,
            {
                let ghost tail0 = tail.deep_view();
                tail.push(tokens[i].clone());
                proof {
                    let dv = tokens.deep_view();
                    assert(dv[i as int] == tokens@[i as int]@);
                    assert(tail.deep_view() =~= tail0.push(dv[i as int]));
                    assert(dv.subrange(2, i + 1) =~= dv.subrange(2, i as int).push(dv[i as int]));
                }
                i += 1;
            }
            let msg = join_strings(&tail, " ");
            Some(CommandResult::Whisper(target, msg))
        } else if crate::text::str_eq(verb, "quit") || crate::text::str_eq(verb, "exit") {
            Some(CommandResult::Quit)
        } else if crate::text::str_eq(verb, "help") || crate::text::str_eq(verb, "?") {
            Some(CommandResult::Help)
        } else {
            let mut m = String::from_str("Unknown command: ");
            m.append(verb);
            Some(CommandResult::InvalidCommand(m))
        }
    }

    /// Applies a parsed command for the client at `addr` against the two
    /// registries, returning either a message to publish on the bus
    /// (`Ok(Some(..))`), nothing (`Ok(None)`), or a line of text for the
    /// requester alone (`Err`), which carries informational as well as
    /// failure text.
    #[verifier::rlimit(50)]
    pub fn execute(
        cmd: CommandResult,
        addr: Addr,
        client_manager: &mut ClientManager,
        room_manager: &mut RoomManager,
    ) -> (r: Result<Option<ChatMessage>, String>)
        requires
            old(client_manager).wf(),
            old(room_manager).wf(),
        ensures
            final(client_manager).wf(),
            final(room_manager).wf(),
            (cmd matches CommandResult::ChangeNick(n) ==> nick_post(
                *old(client_manager),
                *final(client_manager),
                addr,
                n@,
                r,
            ) && *final(room_manager) == *old(room_manager)),
            (cmd matches CommandResult::JoinRoom(room, pwd) ==> join_post(
                *old(room_manager),
                *final(room_manager),
                addr,
                room@,
                opt_str_view(pwd),
                r,
            ) && *final(client_manager) == *old(client_manager)),
            (cmd matches CommandResult::CreateRoom(name, pwd) ==> create_post(
                *old(room_manager),
                *final(room_manager),
                addr,
                name@,
                opt_str_view(pwd),
                r,
            ) && *final(client_manager) == *old(client_manager)),
            (cmd matches CommandResult::InviteUser(user, room) ==> invite_post(
                *old(client_manager),
                *old(room_manager),
                addr,
                user@,
                room@,
                r,
            ) && *final(client_manager) == *old(client_manager) && *final(room_manager) == *old(room_manager)),
            (cmd matches CommandResult::ListUsers ==> list_users_post(
                *old(client_manager),
                *old(room_manager),
                addr,
                r,
            ) && *final(client_manager) == *old(client_manager) && *final(room_manager) == *old(room_manager)),
            (cmd matches CommandResult::ListRooms ==> (r matches Err(m) && m@
                == "Available rooms:\n"@ + rooms_overview(old(room_manager).rooms@))
                && *final(client_manager) == *old(client_manager)
                && *final(room_manager) == *old(room_manager)),
            (cmd matches CommandResult::Whisper(target, message) ==> whisper_post(
                *old(client_manager),
                addr,
                target@,
                message@,
                r,
            ) && *final(client_manager) == *old(client_manager) && *final(room_manager) == *old(room_manager)),
            (cmd matches CommandResult::Quit ==> r == Ok::<Option<ChatMessage>, String>(None)
                && *final(client_manager) == *old(client_manager) && *final(room_manager) == *old(room_manager)),
            (cmd matches CommandResult::Help ==> (r matches Err(m) && m@ == help_text())
                && *final(client_manager) == *old(client_manager)
                && *final(room_manager) == *old(room_manager)),
            (cmd matches CommandResult::InvalidCommand(reason) ==> (r matches Err(m) && m@ == "✗ "@
                + reason@) && *final(client_manager) == *old(client_manager)
                && *final(room_manager) == *old(room_manager)),
    {
        match cmd {
            CommandResult::ChangeNick(new_name) => {
                if client_manager.is_name_available(new_name.as_str()) {
                    client_manager.update_client_name(addr, new_name);
                    Ok(None)
                } else {
                    Err(String::from_str("✗ Name already taken"))
                }
            },
            CommandResult::JoinRoom(room, password) => {
                let ghost pre = *old(room_manager);
                let current = room_manager.get_user_room(addr);
                match &current {
                    Some(curr) => {
                        room_manager.leave_room(curr.as_str(), addr);
                    },
                    None => {},
                }
                let ghost mid = *room_manager;
                proof {
                    crate::room_registry::lemma_same_names_same_lookup(pre, mid, room@);
                    if pre.spec_has_room(room@) {
                        assert(mid.spec_room(room@).password == pre.spec_room(room@).password);
                    }
                }
                let pwd_ref: Option<&str> = match &password {
                    Some(p) => Some(p.as_str()),
                    None => None,
                };
                let outcome = room_manager.join_room(room.as_str(), addr, pwd_ref);
                proof {
                    let post = *room_manager;
                    crate::room_registry::lemma_same_names_same_lookup(mid, post, room@);
                    if outcome is Ok {
                        let idx = mid.spec_room_index(room@);
                        assert(post.rooms@[idx].members@.contains(addr)) by {
                            let roommid = mid.rooms@[idx];
                            if !roommid.members@.contains(addr) {
                                assert(post.rooms@[idx].members@ == roommid.members@.push(addr));
                                assert(post.rooms@[idx].members@.last() == addr);
                            }
                        }
                        assert(post.spec_room(room@).members@.contains(addr));
                    }
                    if outcome is Err && pre.spec_in_at_most_one_room(addr) {
                        assert(post == mid);
                        match current {
                            Some(curr) => {
                                let idxc = pre.spec_room_index(curr@);
                                assert(!mid.rooms@[idxc].members@.contains(addr));
                                assert forall|i: int|
                                    0 <= i < mid.rooms@.len() implies !(
                                #[trigger] mid.rooms@[i]).members@.contains(addr) by {
                                    if i != idxc {
                                        assert(mid.rooms@[i] == pre.rooms@[i]);
                                        if pre.rooms@[i].members@.contains(addr) {
                                            assert(pre.rooms@[idxc].members@.contains(addr));
                                        }
                                    }
                                }
                            },
                            None => {
                                assert(mid == pre);
                            },
                        }
                    }
                }
                match outcome {
                    Ok(()) => Ok(None),
                    Err(RoomError::NotFound) => {
                        let mut m = String::from_str("Room '");
                        m.append(room.as_str());
                        m.append("' does not exist");
                        Err(m)
                    },
                    Err(RoomError::PasswordRequired) => Err(
                        String::from_str("Room requires a password!"),
                    ),
                    Err(_) => Err(String::from_str("Incorrect password!")),
                }
            },
            CommandResult::CreateRoom(room_name, password) => {
                let pwd_copy: Option<String> = match &password {
                    Some(p) => Some(p.clone()),
                    None => None,
                };
                let ghost pre = *old(room_manager);
                match room_manager.create_room(room_name.clone(), pwd_copy, addr) {
                    Ok(()) => {
                        let ghost mid = *room_manager;
                        proof {
                            let last = mid.rooms@.len() - 1;
                            assert(mid.rooms@[last].name@ == room_name@);
                            assert(mid.spec_has_room(room_name@));
                            let k = mid.spec_room_index(room_name@);
                            assert(mid.rooms@[k].name@ == room_name@);
                            if k != last {
                                assert(false);
                            }
                        }
                        let pwd_ref: Option<&str> = match &password {
                            Some(p) => Some(p.as_str()),
                            None => None,
                        };
                        let joined = room_manager.join_room(room_name.as_str(), addr, pwd_ref);
                        proof {
                            let post = *room_manager;
                            let last = mid.rooms@.len() - 1;
                            assert(mid.spec_room(room_name@).password_accepted(
                                opt_str_view(password),
                            ));
                            assert(joined is Ok);
                            assert(post.rooms@[last].members@ =~= seq![addr]);
                            assert forall|i: int| 0 <= i < pre.rooms@.len() implies post.rooms@[i]
                                == pre.rooms@[i] by {
                                assert(post.rooms@[i] == mid.rooms@[i]);
                                assert(mid.rooms@[i] == mid.rooms@.drop_last()[i]);
                            }
                        }
                        let mut m = String::from_str("✓ Room '");
                        m.append(room_name.as_str());
                        if password.is_some() {
                            m.append("' created (password protected) and joined");
                        } else {
                            m.append("' created and joined");
                        }
                        Err(m)
                    },
                    Err(_) => {
                        let mut m = String::from_str("x Room '");
                        m.append(room_name.as_str());
                        m.append("' already exists");
                        Err(m)
                    },
                }
            },
            CommandResult::InviteUser(username, room_name) => {
                let room_info = room_manager.get_room_info(room_name.as_str());
                match room_info {
                    None => {
                        let mut m = String::from_str("✗ Room '");
                        m.append(room_name.as_str());
                        m.append("' does not exist");
                        Err(m)
                    },
                    Some((owner_addr, password)) => {
                        if owner_addr != addr {
                            return Err(
                                String::from_str("✗ Only the owner of this room can invite users"),
                            );
                        }
                        let target = client_manager.get_client_by_name(username.as_str());
                        let sender = client_manager.get_clients_name(addr);
                        match (target, sender) {
                            (Some(target_addr), Some(sender_name)) => {
                                let invite_msg = build_invite_text(
                                    sender_name.as_str(),
                                    room_name.as_str(),
                                    &password,
                                );
                                let whisper_msg = ChatMessage::whisper(
                                    invite_msg,
                                    addr,
                                    sender_name,
                                    target_addr,
                                );
                                Ok(Some(whisper_msg))
                            },
                            _ => {
                                let mut m = String::from_str("✗ User '");
                                m.append(username.as_str());
                                m.append("' not found");
                                Err(m)
                            },
                        }
                    },
                }
            },
            CommandResult::ListUsers => {
                match room_manager.get_user_room(addr) {
                    Some(room_name) => {
                        let members = room_manager.get_room_members(room_name.as_str());
                        let names = collect_member_names(client_manager, &members);
                        let joined = join_strings(&names, ", ");
                        let mut m = String::from_str("Users in ");
                        m.append(room_name.as_str());
                        m.append(": ");
                        m.append(joined.as_str());
                        proof {
                            assert(room_manager.spec_has_room(room_name@) && room_manager.spec_room(
                                room_name@,
                            ).members@.contains(addr) && m@ == "Users in "@ + room_name@ + ": "@
                                + join_spec(
                                member_names(
                                    *client_manager,
                                    room_manager.spec_room(room_name@).members@,
                                ),
                                ", "@,
                            ));
                        }
                        Err(m)
                    },
                    None => Err(String::from_str("You are not in a room")),
                }
            },
            CommandResult::ListRooms => {
                let listing = room_manager.list_rooms();
                let mut out = String::from_str("Available rooms:\n");
                let n = listing.len();
                let mut i: usize = 0;
                proof {
                    assert(rooms_overview(room_manager.rooms@.subrange(0, 0)) =~= Seq::<
                        char,
                    >::empty());
                    assert(out@ =~= "Available rooms:\n"@ + rooms_overview(
                        room_manager.rooms@.subrange(0, 0),
                    ));
                }
                while i < n
                    invariant
                        i <= n,
                        n == listing@.len(),
                        n == room_manager.rooms@.len(),
                        room_manager.wf(),
                        forall|k: int|
                            0 <= k < n ==> {
                                &&& (#[trigger] listing@[k]).0@ == room_manager.rooms@[k].name@
                                &&& listing@[k].1 == room_manager.rooms@[k].members@.len()
                                &&& listing@[k].2 == (room_manager.rooms@[k].password is Some)
                            },
                        out@ == "Available rooms:\n"@ + rooms_overview(
                            room_manager.rooms@.subrange(0, i as int),
                        ),
                    decreases n - i,
                {
                    let entry = &listing[i];
                    out.append("  ");
                    if entry.2 {
                        out.append("🔒");
                    }
                    out.append(" ");
                    out.append(entry.0.as_str());
                    out.append(" (");
                    let count_str = u64_to_string(entry.1 as u64);
                    out.append(count_str.as_str());
                    out.append(" users)\n");
                    proof {
                        reveal_strlit("");
                        let pre = room_manager.rooms@.subrange(0, i as int);
                        let now = room_manager.rooms@.subrange(0, i + 1);
                        assert(now.drop_last() =~= pre);
                        assert(now.last() == room_manager.rooms@[i as int]);
                        assert(out@ =~= "Available rooms:\n"@ + rooms_overview(now));
                    }
                    i += 1;
                }
                proof {
                    assert(room_manager.rooms@.subrange(0, n as int) =~= room_manager.rooms@);
                }
                Err(out)
            },
            CommandResult::Whisper(target_name, message) => {
                let target = client_manager.get_client_by_name(target_name.as_str());
                let sender = client_manager.get_clients_name(addr);
                match (target, sender) {
                    (Some(target_addr), Some(sender_name)) => {
                        let whisper_msg = ChatMessage::whisper(
                            message,
                            addr,
                            sender_name,
                            target_addr,
                        );
                        Ok(Some(whisper_msg))
                    },
                    _ => {
                        let mut m = String::from_str("User '");
                        m.append(target_name.as_str());
                        m.append("' not found");
                        Err(m)
                    },
                }
            },
            CommandResult::Quit => Ok(None),
            CommandResult::Help => Err(
                String::from_str(
                    "\n\n═══════════════ Available Commands ═══════════════\n/nick <name>            - Change your nickname\n/create <room> [pwd]    - Create a new room\n/join <room> [pwd]      - Join a room\n/invite <user> <room>   - Invite user to your room\n/list                   - List users in current room\n/rooms                  - List all rooms\n/w <user> <msg>         - Send private message\n/help                   - Show this help\n/quit                   - Exit chat\n═══════════════════════════════════════════════════\n\n",
                ),
            ),
            CommandResult::InvalidCommand(msg) => {
                let mut m = String::from_str("✗ ");
                m.append(msg.as_str());
                Err(m)
            },
        }
    }

    /// The verbs the parser understands.
    pub open spec fn known_verb(v: Seq<char>) -> bool {
        ||| v == "nick"@
        ||| v == "join"@
        ||| v == "create"@
        ||| v == "invite"@
        ||| v == "list"@
        ||| v == "rooms"@
        ||| v == "whisper"@
        ||| v == "w"@
        ||| v == "quit"@
        ||| v == "exit"@
        ||| v == "help"@
        ||| v == "?"@
    }
}

/// The view of an optional string.
pub open spec fn opt_str_view(o: Option<String>) -> Option<Seq<char>> {
    match o {
        Some(s) => Some(s@),
        None => None,
    }
}

/// What `/nick` does: the rename happens exactly when the name is free.
pub open spec fn nick_post(
    pre: ClientManager,
    post: ClientManager,
    addr: Addr,
    n: Seq<char>,
    r: Result<Option<ChatMessage>, String>,
) -> bool {
    if pre.spec_name_taken(n) {
        &&& (r matches Err(m) && m@ == "✗ Name already taken"@)
        &&& post == pre
    } else {
        &&& r == Ok::<Option<ChatMessage>, String>(None)
        &&& post.color_counter == pre.color_counter
        &&& (!pre.spec_has_addr(addr) ==> post == pre)
        &&& (pre.spec_has_addr(addr) ==> {
            &&& post.spec_has_addr(addr)
            &&& post.spec_info(addr).name@ == n
            &&& post.spec_info(addr).color_index == pre.spec_info(addr).color_index
            &&& post.entries@.len() == pre.entries@.len()
        })
    }
}

/// What `/join` does: the requester leaves its current room first, so a
/// failed join leaves it in no room; success adds it to the target room.
pub open spec fn join_post(
    pre: RoomManager,
    post: RoomManager,
    addr: Addr,
    room: Seq<char>,
    pwd: Option<Seq<char>>,
    r: Result<Option<ChatMessage>, String>,
) -> bool {
    &&& post.rooms@.len() == pre.rooms@.len()
    &&& (forall|i: int|
        0 <= i < pre.rooms@.len() ==> {
            &&& (#[trigger] post.rooms@[i]).name == pre.rooms@[i].name
            &&& post.rooms@[i].password == pre.rooms@[i].password
            &&& post.rooms@[i].owner == pre.rooms@[i].owner
        })
    &&& (r is Ok <==> pre.spec_has_room(room) && pre.spec_room(room).password_accepted(pwd))
    &&& (r is Ok ==> r == Ok::<Option<ChatMessage>, String>(None) && post.spec_room(
        room,
    ).members@.contains(addr))
    &&& (!pre.spec_has_room(room) ==> (r matches Err(m) && m@ == "Room '"@ + room
        + "' does not exist"@))
    &&& (pre.spec_has_room(room) && pre.spec_room(room).password is Some && pwd is None ==> (
    r matches Err(m) && m@ == "Room requires a password!"@))
    &&& (pre.spec_has_room(room) && pre.spec_room(room).password is Some && pwd is Some && !pre
        .spec_room(room).password_accepted(pwd) ==> (r matches Err(m) && m@
        == "Incorrect password!"@))
    &&& (r is Err && pre.spec_in_at_most_one_room(addr) ==> !post.spec_in_some_room(addr))
}

/// What `/create` does: a fresh room owned and joined by the creator, or a
/// refusal when the name is taken. Both outcomes travel as requester text.
pub open spec fn create_post(
    pre: RoomManager,
    post: RoomManager,
    addr: Addr,
    name: Seq<char>,
    pwd: Option<Seq<char>>,
    r: Result<Option<ChatMessage>, String>,
) -> bool {
    if pre.spec_has_room(name) {
        &&& post == pre
        &&& (r matches Err(m) && m@ == "x Room '"@ + name + "' already exists"@)
    } else {
        &&& (r matches Err(m) && m@ == (if pwd is Some {
            "✓ Room '"@ + name + "' created (password protected) and joined"@
        } else {
            "✓ Room '"@ + name + "' created and joined"@
        }))
        &&& post.rooms@.len() == pre.rooms@.len() + 1
        &&& (forall|i: int| 0 <= i < pre.rooms@.len() ==> post.rooms@[i] == pre.rooms@[i])
        &&& post.rooms@.last().name@ == name
        &&& (post.rooms@.last().password is Some <==> pwd is Some)
        &&& (post.rooms@.last().password matches Some(p) ==> pwd matches Some(q) && p@ == q)
        &&& post.rooms@.last().owner == addr
        &&& post.rooms@.last().members@ == seq![addr]
    }
}

/// The invitation a room owner whispers to a user, password included in the
/// clear when the room has one.
pub open spec fn invite_text(
    sender: Seq<char>,
    room: Seq<char>,
    password: Option<Seq<char>>,
) -> Seq<char> {
    match password {
        Some(p) => "\n📨 "@ + sender + " invited you to join room '"@ + room + "'. Password: "@ + p
            + "\nUse: /join "@ + room + " "@ + p + "\n"@,
        None => "📨 "@ + sender + " invited you to join room '"@ + room + "'\nUse: /join "@ + room,
    }
}

/// What `/invite` does: only the owner may invite, the target is resolved
/// by name, and the invitation goes out as a whisper.
pub open spec fn invite_post(
    cm: ClientManager,
    rm: RoomManager,
    addr: Addr,
    username: Seq<char>,
    room: Seq<char>,
    r: Result<Option<ChatMessage>, String>,
) -> bool {
    if !rm.spec_has_room(room) {
        r matches Err(m) && m@ == "✗ Room '"@ + room + "' does not exist"@
    } else if rm.spec_room(room).owner != addr {
        r matches Err(m) && m@ == "✗ Only the owner of this room can invite users"@
    } else if cm.spec_name_taken(username) && cm.spec_has_addr(addr) {
        r matches Ok(om) && om matches Some(msg) && {
            &&& msg.message_type == crate::message::MessageType::Whisper
            &&& msg.sender_addr == addr
            &&& msg.sender_name@ == cm.spec_info(addr).name@
            &&& (msg.target matches Some(t) && cm.spec_has_addr(t) && cm.spec_info(t).name@
                == username)
            &&& msg.content@ == invite_text(
                cm.spec_info(addr).name@,
                room,
                opt_str_view(rm.spec_room(room).password),
            )
        }
    } else {
        r matches Err(m) && m@ == "✗ User '"@ + username + "' not found"@
    }
}

/// The display names on file for `members`, in member order, skipping
/// connections with no entry.
pub open spec fn member_names(cm: ClientManager, members: Seq<Addr>) -> Seq<Seq<char>>
    decreases members.len(),
{
    if members.len() == 0 {
        Seq::empty()
    } else {
        let rest = member_names(cm, members.drop_first());
        if cm.spec_has_addr(members[0]) {
            seq![cm.spec_info(members[0]).name@] + rest
        } else {
            rest
        }
    }
}

/// What `/list` does: the names in the requester's room, or a note that it
/// is in none.
pub open spec fn list_users_post(
    cm: ClientManager,
    rm: RoomManager,
    addr: Addr,
    r: Result<Option<ChatMessage>, String>,
) -> bool {
    if rm.spec_in_some_room(addr) {
        r matches Err(m) && exists|name: Seq<char>|
            {
                &&& #[trigger] rm.spec_has_room(name)
                &&& rm.spec_room(name).members@.contains(addr)
                &&& m@ == "Users in "@ + name + ": "@ + join_spec(
                    member_names(cm, rm.spec_room(name).members@),
                    ", "@,
                )
            }
    } else {
        r matches Err(m) && m@ == "You are not in a room"@
    }
}

/// One line of the `/rooms` overview.
pub open spec fn room_overview_line(room: crate::room::Room) -> Seq<char> {
    "  "@ + (if room.password is Some {
        "🔒"@
    } else {
        ""@
    }) + " "@ + room.name@ + " ("@ + dec_digits(room.members@.len()) + " users)\n"@
}

/// The `/rooms` overview body, one line per room in registry order.
pub open spec fn rooms_overview(rooms: Seq<crate::room::Room>) -> Seq<char>
    decreases rooms.len(),
{
    if rooms.len() == 0 {
        Seq::empty()
    } else {
        rooms_overview(rooms.drop_last()) + room_overview_line(rooms.last())
    }
}

/// What `/whisper` does: the message goes to the named user when both ends
/// are on file, else the requester is told the user was not found.
pub open spec fn whisper_post(
    cm: ClientManager,
    addr: Addr,
    target: Seq<char>,
    message: Seq<char>,
    r: Result<Option<ChatMessage>, String>,
) -> bool {
    if cm.spec_name_taken(target) && cm.spec_has_addr(addr) {
        r matches Ok(om) && om matches Some(msg) && {
            &&& msg.message_type == crate::message::MessageType::Whisper
            &&& msg.content@ == message
            &&& msg.sender_addr == addr
            &&& msg.sender_name@ == cm.spec_info(addr).name@
            &&& (msg.target matches Some(t) && cm.spec_has_addr(t) && cm.spec_info(t).name@
                == target)
        }
    } else {
        r matches Err(m) && m@ == "User '"@ + target + "' not found"@
    }
}

/// The `/help` reference text.
pub open spec fn help_text() -> Seq<char> {
    "\n\n═══════════════ Available Commands ═══════════════\n/nick <name>            - Change your nickname\n/create <room> [pwd]    - Create a new room\n/join <room> [pwd]      - Join a room\n/invite <user> <room>   - Invite user to your room\n/list                   - List users in current room\n/rooms                  - List all rooms\n/w <user> <msg>         - Send private message\n/help                   - Show this help\n/quit                   - Exit chat\n═══════════════════════════════════════════════════\n\n"@
}

/// The invitation text for a whisper, built to match `invite_text`.
fn build_invite_text(sender: &str, room: &str, password: &Option<String>) -> (r: String)
    ensures
        r@ == invite_text(sender@, room@, opt_str_view(*password)),
{
    match password {
        Some(pwd) => {
            let mut m = String::from_str("\n📨 ");
            m.append(sender);
            m.append(" invited you to join room '");
            m.append(room);
            m.append("'. Password: ");
            m.append(pwd.as_str());
            m.append("\nUse: /join ");
            m.append(room);
            m.append(" ");
            m.append(pwd.as_str());
            m.append("\n");
            m
        },
        None => {
            let mut m = String::from_str("📨 ");
            m.append(sender);
            m.append(" invited you to join room '");
            m.append(room);
            m.append("'\nUse: /join ");
            m.append(room);
            m
        },
    }
}

/// The display names on file for `members`, in member order.
pub fn collect_member_names(cm: &ClientManager, members: &Vec<Addr>) -> (r: Vec<String>)
    requires
        cm.wf(),
    ensures
        r.deep_view() == member_names(*cm, members@),
{
    let n = members.len();
    let mut names: Vec<String> = Vec::new();
    let mut i: usize = 0;
    proof {
        assert(names.deep_view() =~= Seq::<Seq<char>>::empty());
        assert(members@.skip(0) =~= members@);
        assert(names.deep_view() + member_names(*cm, members@.skip(0)) =~= member_names(
            *cm,
            members@,
        ));
    }
    while i < n
        invariant
            i <= n,
            n == members@.len(),
            cm.wf(),
            names.deep_view() + member_names(*cm, members@.skip(i as int)) == member_names(
                *cm,
                members@,
            ),
        decreases n - i,
    {
        let ghost rest = members@.skip(i as int);
        let ghost names0 = names.deep_view();
        proof {
            assert(rest[0] == members@[i as int]);
            assert(rest.drop_first() =~= members@.skip(i + 1));
        }
        match cm.get_clients_name(members[i]) {
            Some(name) => {
                let ghost namev = name@;
                names.push(name);
                proof {
                    assert(names.deep_view() =~= names0.push(namev));
                    assert(member_names(*cm, rest) == seq![namev] + member_names(
                        *cm,
                        members@.skip(i + 1),
                    ));
                    assert(names0.push(namev) + member_names(*cm, members@.skip(i + 1)) =~= names0
                        + member_names(*cm, rest));
                }
            },
            None => {
                proof {
                    assert(member_names(*cm, rest) == member_names(*cm, members@.skip(i + 1)));
                }
            },
        }
        i += 1;
    }
    proof {
        assert(members@.skip(n as int) =~= Seq::<Addr>::empty());
        assert(names.deep_view() + member_names(*cm, members@.skip(n as int)) =~= names.deep_view());
    }
    names
}

} // verus!
