use rusty_chat::client_lines::{check_validation_lines, parse_message, strip_ansi_codes};
use rusty_chat::formatter::{format_message, format_time_of_day, format_user_list, Formatter};
use rusty_chat::message::{ChatMessage, MessageType};
use rusty_chat::text::{contains_str, find_char, join_strings, split_whitespace_vec, starts_with,
    str_eq, trim, u64_to_string, u64_to_two_digits};

#[test]
fn trim_removes_surrounding_whitespace() {
    assert_eq!(trim("  hello \r\n"), "hello");
    assert_eq!(trim("\t"), "");
    assert_eq!(trim("inner  space"), "inner  space");
}

#[test]
fn split_whitespace_tokenizes() {
    let toks = split_whitespace_vec("  one   two\tthree ");
    assert_eq!(toks, vec!["one", "two", "three"]);
    assert!(split_whitespace_vec("   ").is_empty());
}

#[test]
fn number_rendering_is_decimal() {
    assert_eq!(u64_to_string(0), "0");
    assert_eq!(u64_to_string(42), "42");
    assert_eq!(u64_to_string(1234567890), "1234567890");
    assert_eq!(u64_to_two_digits(5), "05");
    assert_eq!(u64_to_two_digits(59), "59");
}

#[test]
fn join_and_search_helpers() {
    let v = vec!["a".to_string(), "b".to_string(), "c".to_string()];
    assert_eq!(join_strings(&v, ", "), "a, b, c");
    assert_eq!(join_strings(&Vec::new(), ", "), "");
    assert!(starts_with("general", "gen"));
    assert!(!starts_with("gen", "general"));
    assert!(contains_str("the name is taken", "name"));
    assert!(!contains_str("short", "absent"));
    assert_eq!(find_char("a:b", ':'), Some(1));
    assert_eq!(find_char("ab", ':'), None);
    assert!(str_eq("same", "same"));
    assert!(!str_eq("same", "sane"));
}

#[test]
fn align_right_pads_to_width() {
    assert_eq!(Formatter::align_right("abc", 6), "   abc");
    assert_eq!(Formatter::align_right("abcdef", 3), "abcdef");
    assert_eq!(Formatter::format_own_message("hi", 10), "   You: hi");
}

#[test]
fn other_message_carries_the_senders_color() {
    let line = Formatter::format_other_message("bob", "hi", "\x1b[34m");
    assert_eq!(line, "\x1b[34mbob\x1b[0m: hi");
}

#[test]
fn time_of_day_is_hh_mm_ss() {
    assert_eq!(format_time_of_day(0), "00:00:00");
    assert_eq!(format_time_of_day(3661), "01:01:01");
    assert_eq!(format_time_of_day(86399), "23:59:59");
}

#[test]
fn format_message_renders_each_kind() {
    let chat = ChatMessage::new("hi".to_string(), 1, "alice".to_string(), "general".to_string());
    let line = format_message(&chat);
    assert!(line.contains("alice"));
    assert!(line.contains(": hi\n"));
    assert!(line.starts_with("\x1b[1m["));

    let system = ChatMessage::system("notice".to_string(), "general".to_string());
    assert_eq!(format_message(&system), "\x1b[93m[SYSTEM] notice\x1b[0m\n");

    let whisper = ChatMessage::whisper("psst".to_string(), 1, "alice".to_string(), 2);
    assert_eq!(format_message(&whisper), "\x1b[95m[Whisper from alice] psst\x1b[0m\n");

    let list = ChatMessage::user_list(vec!["a".to_string()], "general".to_string());
    assert_eq!(format_message(&list), "");
}

#[test]
fn user_list_rendering_has_header_and_one_line_each() {
    let users = vec!["alice".to_string(), "bob".to_string()];
    let out = format_user_list(&users);
    assert!(out.starts_with("\x1b[96mUsers in this room:\x1b[0m\n"));
    assert!(out.contains("alice\x1b[0m\n"));
    assert!(out.contains("bob\x1b[0m\n"));
}

#[test]
fn strip_ansi_removes_escape_sequences() {
    assert_eq!(strip_ansi_codes("\x1b[31mred\x1b[0m"), "red");
    assert_eq!(strip_ansi_codes("plain"), "plain");
    assert_eq!(strip_ansi_codes("\x1b[1A\x1b[2Kline"), "line");
    assert_eq!(strip_ansi_codes("tail\x1b"), "tail");
}

#[test]
fn client_parses_chat_system_and_whisper_lines() {
    let m = parse_message("alice: hi", "general").unwrap();
    assert_eq!(m.message_type, MessageType::Chat);
    assert_eq!(m.sender_name, "alice");
    assert_eq!(m.content, "hi");
    assert_eq!(m.room, "general");

    let m = parse_message("[SYSTEM] down at noon", "general").unwrap();
    assert_eq!(m.message_type, MessageType::System);
    assert_eq!(m.sender_name, "System");
    assert_eq!(m.content, "down at noon");

    let m = parse_message("[Whisper from bob] psst", "general").unwrap();
    assert_eq!(m.message_type, MessageType::Whisper);
    assert_eq!(m.sender_name, "bob");
    assert_eq!(m.content, "psst");
}

#[test]
fn client_skips_noise_and_unparseable_lines() {
    assert_eq!(parse_message("", "general").unwrap_err(), "Empty line");
    assert_eq!(
        parse_message("Welcome to Rusty Chat", "general").unwrap_err(),
        "System prompt"
    );
    assert_eq!(parse_message("The name is taken.", "general").unwrap_err(), "System prompt");
    assert_eq!(parse_message("no separator here", "general").unwrap_err(), "Unparseable line");
}

#[test]
fn validation_lines_turn_into_connection_errors() {
    let ok = vec!["✓ Welcome, alice!".to_string()];
    assert!(check_validation_lines(&ok).is_none());
    let taken = vec!["The name is taken. Choose another name.".to_string()];
    assert_eq!(
        check_validation_lines(&taken).as_deref(),
        Some("Username already taken. Please choose another name.")
    );
    let short = vec!["Name must be between 2-20 characters. Try again.".to_string()];
    assert_eq!(
        check_validation_lines(&short).as_deref(),
        Some("Username must be between 2-20 characters.")
    );
}
