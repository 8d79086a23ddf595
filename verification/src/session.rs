//! The per-connection session engine: the registration step, the decisions
//! of the message loop, and the delivery filter applied to every message a
//! session receives from the broadcast bus. The surrounding I/O loop
//! performs the returned actions and feeds back what it reads.
use crate::client_registry::{register_transition, ClientManager};
use crate::colors::{colorize_spec, Colors};
use crate::command::{
    cmd_tokens,
    collect_member_names,
    is_command_line,
    member_names,
    CommandProcessor,
    CommandResult,
};
use crate::formatter::{align_right_spec, Formatter};
use crate::message::{ChatMessage, MessageType};
use crate::room_registry::RoomManager;
use crate::text::{
    contains_spec,
    contains_str,
    dec_digits,
    join_spec,
    starts_with,
    starts_with_spec,
    trim,
    trim_spec,
    u64_to_string,
};
use crate::Addr;
use vstd::prelude::*;

verus! {

/// The width the interactive formatter aligns its own lines to.
pub const TERMINAL_WIDTH: usize = 80;

/// What a session asks its I/O loop to do.
#[derive(Debug)]
pub enum SessionAction {
    /// Write this line to the session's own socket.
    WriteLine(String),
    /// Publish this message on the broadcast bus.
    Publish(ChatMessage),
    /// Close the connection.
    Disconnect,
}

/// How one registration attempt ends.
#[derive(Debug)]
pub enum RegistrationOutcome {
    /// The name was accepted; the client is registered and in "general".
    Accepted(String),
    /// The name is not between 2 and 20 characters.
    InvalidLength,
    /// Another client already holds the name.
    NameTaken,
}

/// The name an attempt asks for: the trimmed input line, or the session's
/// anonymous default when the line is blank.
pub open spec fn requested_name(input: Seq<char>, anonymous_id: u32) -> Seq<char> {
    if trim_spec(input).len() == 0 {
        "Anonymous#"@ + dec_digits(anonymous_id as nat)
    } else {
        trim_spec(input)
    }
}

/// Whether a received bus message is shown to the session at `my_addr`
/// whose current room is `my_room`: announcements always, whispers only to
/// their target, chat and member lists only within the same room — and a
/// session never receives its own chat back.
pub open spec fn delivered(msg: ChatMessage, my_addr: Addr, my_room: Option<Seq<char>>) -> bool {
    match msg.message_type {
        MessageType::System => true,
        MessageType::Whisper => msg.target == Some(my_addr),
        MessageType::Chat => my_room == Some(msg.room@) && msg.sender_addr != my_addr,
        MessageType::UserList => my_room == Some(msg.room@),
        _ => false,
    }
}

/// The view of the session's current room.
pub open spec fn room_view(my_room: Option<String>) -> Option<Seq<char>> {
    match my_room {
        Some(r) => Some(r@),
        None => None,
    }
}

/// Decides whether a bus message is shown to this session.
pub fn should_deliver(msg: &ChatMessage, my_addr: Addr, my_room: &Option<String>) -> (r: bool)
    ensures
        r == delivered(*msg, my_addr, room_view(*my_room)),
{
    match msg.message_type {
        MessageType::System => true,
        MessageType::Whisper => {
            match msg.target {
                Some(t) => t == my_addr,
                None => false,
            }
        },
        MessageType::Chat => {
            match my_room {
                Some(room) => {
                    crate::text::str_eq(msg.room.as_str(), room.as_str()) && msg.sender_addr
                        != my_addr
                },
                None => false,
            }
        },
        MessageType::UserList => {
            match my_room {
                Some(room) => crate::text::str_eq(msg.room.as_str(), room.as_str()),
                None => false,
            }
        },
        _ => false,
    }
}

/// One registration attempt: the requested name is accepted exactly when
/// it has 2 to 20 characters and no other client holds it; acceptance
/// registers the client and puts it in "general".
pub fn registration_step(
    client_manager: &mut ClientManager,
    room_manager: &mut RoomManager,
    addr: Addr,
    anonymous_id: u32,
    input_line: &str,
) -> (r: RegistrationOutcome)
    requires
        old(client_manager).wf(),
        old(client_manager).color_counter < usize::MAX,
        old(room_manager).wf(),
    ensures
        final(client_manager).wf(),
        final(room_manager).wf(),
        ({
            let name = requested_name(input_line@, anonymous_id);
            let ok_len = 2 <= name.len() <= 20;
            let taken = old(client_manager).spec_name_taken(name);
            &&& (r matches RegistrationOutcome::InvalidLength <==> !ok_len)
            &&& (r matches RegistrationOutcome::NameTaken <==> ok_len && taken)
            &&& (r matches RegistrationOutcome::Accepted(n) ==> n@ == name && ok_len && !taken
                && register_transition(
                *old(client_manager),
                *final(client_manager),
                addr,
                name,
                old(client_manager).color_counter,
            ))
            &&& (ok_len && !taken ==> (r matches RegistrationOutcome::Accepted(n) && n@ == name))
            &&& (r matches RegistrationOutcome::Accepted(n) && old(room_manager).spec_room(
                "general"@,
            ).password is None ==> final(room_manager).spec_room("general"@).members@.contains(
                addr,
            ))
            &&& (!(r matches RegistrationOutcome::Accepted(n)) ==> *final(client_manager) == *old(client_manager) && *final(room_manager) == *old(room_manager))
        }),
{
    let name = trim(input_line);
    let final_name = if name.as_str().unicode_len() == 0 {
        let mut d = String::from_str("Anonymous#");
        let digits = u64_to_string(anonymous_id as u64);
        d.append(digits.as_str());
        d
    } else {
        name
    };
    let len = final_name.as_str().unicode_len();
    if len < 2 || len > 20 {
        return RegistrationOutcome::InvalidLength;
    }
    if client_manager.is_name_available(final_name.as_str()) {
        let accepted = final_name.clone();
        client_manager.register_client(addr, final_name);
        let ghost pre_rm = *room_manager;
        let joined = room_manager.join_room("general", addr, None);
        proof {
            crate::room_registry::lemma_same_names_same_lookup(pre_rm, *room_manager, "general"@);
            if pre_rm.spec_room("general"@).password is None {
                assert((None::<&str>).deep_view() == None::<Seq<char>>);
                assert(pre_rm.spec_room("general"@).password_accepted(None::<Seq<char>>));
                assert(joined is Ok);
                let idx = pre_rm.spec_room_index("general"@);
                let roompre = pre_rm.rooms@[idx];
                if !roompre.members@.contains(addr) {
                    assert(room_manager.rooms@[idx].members@ == roompre.members@.push(addr));
                    assert(room_manager.rooms@[idx].members@.last() == addr);
                }
                assert(room_manager.rooms@[idx].members@.contains(addr));
                assert(room_manager.spec_room("general"@).members@.contains(addr));
            }
        }
        RegistrationOutcome::Accepted(accepted)
    } else {
        RegistrationOutcome::NameTaken
    }
}

/// The colour a command outcome line is shown in, chosen from the text as
/// the interactive server does.
pub open spec fn feedback_color(m: Seq<char>) -> Seq<char> {
    if starts_with_spec(m, "✓"@) {
        "\x1b[92m"@
    } else if starts_with_spec(m, "Available"@) || starts_with_spec(m, "Users"@) {
        "\x1b[96m"@
    } else if contains_spec(m, "joined"@) || contains_spec(m, "created"@) || contains_spec(
        m,
        "Returned"@,
    ) {
        "\x1b[92m"@
    } else if starts_with_spec(m, "═══"@) {
        "\x1b[93m"@
    } else {
        "\x1b[91m"@
    }
}

/// Wraps a command outcome line in its feedback colour.
fn colorize_feedback(m: &str) -> (r: String)
    ensures
        r@ == colorize_spec(m@, feedback_color(m@)),
{
    let color = if starts_with(m, "✓") {
        Colors::SUCCESS
    } else if starts_with(m, "Available") || starts_with(m, "Users") {
        Colors::INFO
    } else if contains_str(m, "joined") || contains_str(m, "created") || contains_str(
        m,
        "Returned",
    ) {
        Colors::SUCCESS
    } else if starts_with(m, "═══") {
        Colors::BRIGHT_YELLOW
    } else {
        Colors::ERROR
    };
    Colors::colorize(m, color)
}

/// Decides what one line read from the socket means for the session at
/// `addr`: a blank line is ignored; a command line is executed against the
/// registries and answered on the session's own socket (a `/quit` closes
/// it); any other line is echoed back right-aligned and published to the
/// sender's current room as a chat message.
pub fn handle_input_line(
    line: &str,
    addr: Addr,
    client_manager: &mut ClientManager,
    room_manager: &mut RoomManager,
) -> (r: Vec<SessionAction>)
    requires
        old(client_manager).wf(),
        old(room_manager).wf(),
    ensures
        final(client_manager).wf(),
        final(room_manager).wf(),
        ({
            let t = trim_spec(line@);
            &&& (!is_command_line(line@) ==> *final(client_manager) == *old(client_manager)
                && *final(room_manager) == *old(room_manager))
            &&& (!is_command_line(line@) && t.len() == 0 ==> r@.len() == 0)
            &&& (!is_command_line(line@) && t.len() > 0 && old(client_manager).spec_has_addr(addr)
                && old(room_manager).spec_in_some_room(addr) ==> {
                &&& r@.len() == 2
                &&& (r@[0] matches SessionAction::WriteLine(l) && l@ == colorize_spec(
                    align_right_spec("You: "@ + t, TERMINAL_WIDTH as nat),
                    "\x1b[96m"@,
                ))
                &&& (r@[1] matches SessionAction::Publish(m) && {
                    &&& m.message_type == MessageType::Chat
                    &&& m.content@ == t
                    &&& m.sender_addr == addr
                    &&& m.sender_name@ == old(client_manager).spec_info(addr).name@
                    &&& old(room_manager).spec_has_room(m.room@)
                    &&& old(room_manager).spec_room(m.room@).members@.contains(addr)
                    &&& m.wf()
                })
            })
            &&& (!is_command_line(line@) && t.len() > 0 && !(old(client_manager).spec_has_addr(
                addr,
            ) && old(room_manager).spec_in_some_room(addr)) ==> r@.len() == 0)
            &&& (is_command_line(line@) ==> {
                let toks = cmd_tokens(line@);
                let quit = toks.len() > 0 && (toks[0] == "quit"@ || toks[0] == "exit"@);
                &&& (quit ==> r@.len() == 1 && r@[0] is Disconnect && *final(client_manager)
                    == *old(client_manager) && *final(room_manager) == *old(room_manager))
                &&& (toks.len() >= 2 && toks[0] == "nick"@ ==> (exists|
                    res: Result<Option<ChatMessage>, String>,
                |
                    #[trigger] crate::command::nick_post(
                        *old(client_manager),
                        *final(client_manager),
                        addr,
                        toks[1],
                        res,
                    )) && *final(room_manager) == *old(room_manager))
                &&& (toks.len() >= 2 && toks[0] == "join"@ ==> (exists|
                    res: Result<Option<ChatMessage>, String>,
                |
                    #[trigger] crate::command::join_post(
                        *old(room_manager),
                        *final(room_manager),
                        addr,
                        toks[1],
                        crate::command::optional_token(toks, 2),
                        res,
                    )) && *final(client_manager) == *old(client_manager))
                &&& (toks.len() >= 2 && toks[0] == "create"@ ==> (exists|
                    res: Result<Option<ChatMessage>, String>,
                |
                    #[trigger] crate::command::create_post(
                        *old(room_manager),
                        *final(room_manager),
                        addr,
                        toks[1],
                        crate::command::optional_token(toks, 2),
                        res,
                    )) && *final(client_manager) == *old(client_manager))
                &&& (!(toks.len() >= 2 && (toks[0] == "nick"@ || toks[0] == "join"@ || toks[0]
                    == "create"@)) ==> *final(client_manager) == *old(client_manager)
                    && *final(room_manager) == *old(room_manager))
                &&& (!quit ==> 1 <= r@.len() <= 2)
                &&& (!quit && r@.len() == 2 ==> (r@[0] matches SessionAction::Publish(m)
                    && m.message_type == MessageType::Whisper) && (r@[1]
                    matches SessionAction::WriteLine(l) && l@ == colorize_spec(
                    "✓ Whisper sent"@,
                    "\x1b[92m"@,
                )))
                &&& (!quit && r@.len() == 1 ==> (r@[0] matches SessionAction::WriteLine(l)
                    && exists|m: Seq<char>| l@ == colorize_spec(m, #[trigger] feedback_color(m))))
            })
        }),
{
    let message = trim(line);
    proof {
        crate::text::lemma_trim_idempotent(line@);
        reveal_strlit("/");
        assert("/"@.len() == 1);
    }
    let mut actions: Vec<SessionAction> = Vec::new();
    if message.as_str().unicode_len() == 0 {
        proof {
            assert(!is_command_line(line@));
        }
        return actions;
    }
    match CommandProcessor::parse(message.as_str()) {
        Some(cmd) => {
            proof {
                assert(trim_spec(message@) == trim_spec(line@));
                assert(is_command_line(line@));
                assert(cmd_tokens(line@) == cmd_tokens(message@));
            }
            let is_quit = matches!(cmd, CommandResult::Quit);
            let outcome = CommandProcessor::execute(cmd, addr, client_manager, room_manager);
            proof {
                let toks = cmd_tokens(line@);
                if toks.len() >= 2 && toks[0] == "nick"@ {
                    assert(crate::command::nick_post(
                        *old(client_manager),
                        *client_manager,
                        addr,
                        toks[1],
                        outcome,
                    ));
                }
                if toks.len() >= 2 && toks[0] == "join"@ {
                    assert(crate::command::join_post(
                        *old(room_manager),
                        *room_manager,
                        addr,
                        toks[1],
                        crate::command::optional_token(toks, 2),
                        outcome,
                    ));
                }
                if toks.len() >= 2 && toks[0] == "create"@ {
                    assert(crate::command::create_post(
                        *old(room_manager),
                        *room_manager,
                        addr,
                        toks[1],
                        crate::command::optional_token(toks, 2),
                        outcome,
                    ));
                }
            }
            if is_quit {
                actions.push(SessionAction::Disconnect);
                proof {
                    assert(actions@[0] is Disconnect);
                }
                return actions;
            }
            match outcome {
                Ok(Some(whisper_msg)) => {
                    actions.push(SessionAction::Publish(whisper_msg));
                    let note = Colors::colorize("✓ Whisper sent", Colors::SUCCESS);
                    actions.push(SessionAction::WriteLine(note));
                },
                Ok(None) => {
                    let note = Colors::colorize("✓ Command executed", Colors::SUCCESS);
                    proof {
                        reveal_strlit("✓ Command executed");
                        reveal_strlit("✓");
                        assert("✓"@.len() == 1);
                        assert("✓ Command executed"@[0] == '✓');
                        assert("✓ Command executed"@.subrange(0, 1) =~= "✓"@);
                        assert(starts_with_spec("✓ Command executed"@, "✓"@));
                        assert(feedback_color("✓ Command executed"@) == "\x1b[92m"@);
                    }
                    let ghost mv = "✓ Command executed"@;
                    actions.push(SessionAction::WriteLine(note));
                    proof {
                        assert(actions@[0] matches SessionAction::WriteLine(l) && l@
                            == colorize_spec(mv, feedback_color(mv)));
                    }
                },
                Err(text) => {
                    let note = colorize_feedback(text.as_str());
                    let ghost mv = text@;
                    actions.push(SessionAction::WriteLine(note));
                    proof {
                        assert(actions@[0] matches SessionAction::WriteLine(l) && l@
                            == colorize_spec(mv, feedback_color(mv)));
                    }
                },
            }
            actions
        },
        None => {
            proof {
                assert(trim_spec(message@) == trim_spec(line@));
                assert(!is_command_line(line@));
            }
            let sender_name = match client_manager.get_clients_name(addr) {
                Some(n) => n,
                None => {
                    return actions;
                },
            };
            let room = match room_manager.get_user_room(addr) {
                Some(roomname) => roomname,
                None => {
                    return actions;
                },
            };
            let own = Formatter::format_own_message(message.as_str(), TERMINAL_WIDTH);
            let echoed = Colors::colorize(own.as_str(), Colors::BRIGHT_CYAN);
            actions.push(SessionAction::WriteLine(echoed));
            let chat = ChatMessage::new(message, addr, sender_name, room);
            actions.push(SessionAction::Publish(chat));
            actions
        },
    }
}

/// The member-list update published to a room whenever its membership
/// changes: the names on file for the room's members, joined with commas.
pub fn user_list_message(
    room_manager: &RoomManager,
    client_manager: &ClientManager,
    room_name: &str,
) -> (m: ChatMessage)
    requires
        room_manager.wf(),
        client_manager.wf(),
    ensures
        m.wf(),
        m.message_type == MessageType::UserList,
        m.room@ == room_name@,
        m.content@ == join_spec(
            member_names(*client_manager, room_manager.spec_members(room_name@)),
            ","@,
        ),
{
    let members = room_manager.get_room_members(room_name);
    let usernames = collect_member_names(client_manager, &members);
    ChatMessage::user_list(usernames, String::from_str(room_name))
}

/// What closing a session does: the client leaves the room it was in, its
/// registry entry is dropped, and the vacated room's name is handed back
/// so the caller can publish a fresh member list for it.
pub fn session_cleanup(
    client_manager: &mut ClientManager,
    room_manager: &mut RoomManager,
    addr: Addr,
) -> (r: Option<String>)
    requires
        old(client_manager).wf(),
        old(room_manager).wf(),
    ensures
        final(client_manager).wf(),
        final(room_manager).wf(),
        !final(client_manager).spec_has_addr(addr),
        final(client_manager).entries@ == old(client_manager).entries@.filter(
            |e: (Addr, crate::client_registry::ClientInfo)| e.0 != addr,
        ),
        (r is Some <==> old(room_manager).spec_in_some_room(addr)),
        (r matches Some(room) ==> old(room_manager).spec_has_room(room@) && old(room_manager).spec_room(room@).members@.contains(addr) && final(room_manager).spec_has_room(room@)
            && !final(room_manager).spec_room(room@).members@.contains(addr)),
        (r is None ==> *final(room_manager) == *old(room_manager)),
        old(room_manager).spec_in_at_most_one_room(addr)
            ==> !final(room_manager).spec_in_some_room(addr),
{
    let ghost pre = *room_manager;
    let r = match room_manager.get_user_room(addr) {
        Some(room) => {
            room_manager.leave_room(room.as_str(), addr);
            proof {
                crate::room_registry::lemma_same_names_same_lookup(pre, *room_manager, room@);
                if pre.spec_in_at_most_one_room(addr) {
                    let idxc = pre.spec_room_index(room@);
                    assert forall|i: int|
                        0 <= i < room_manager.rooms@.len() implies !(
                    #[trigger] room_manager.rooms@[i]).members@.contains(addr) by {
                        if i != idxc {
                            assert(room_manager.rooms@[i] == pre.rooms@[i]);
                            if pre.rooms@[i].members@.contains(addr) {
                                assert(pre.rooms@[idxc].members@.contains(addr));
                            }
                        }
                    }
                }
            }
            Some(room)
        },
        None => None,
    };
    client_manager.remove_client(addr);
    r
}

} // verus!
