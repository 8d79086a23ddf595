use rusty_chat::colors::Colors;
use rusty_chat::user_color::ColorGenerator;

#[test]
fn test_same_username_same_color() {
    let color1 = ColorGenerator::generate_user_color("Alice");
    let color2 = ColorGenerator::generate_user_color("Alice");
    assert_eq!(color1, color2);
}

#[test]
fn test_different_usernames_different_colors() {
    let color1 = ColorGenerator::generate_user_color("Alice");
    let color2 = ColorGenerator::generate_user_color("Bob");
    assert_ne!(color1, color2);
}

#[test]
fn user_color_is_a_palette_entry() {
    let palette = [
        "#FF6B6B", "#4ECDC4", "#45B7D1", "#FFA07A", "#98D8C8", "#F7DC6F", "#BB8FCE", "#85C1E2",
        "#F8B739", "#52B788", "#FF8FA3", "#00D9FF",
    ];
    let color = ColorGenerator::generate_user_color("carol");
    assert!(palette.contains(&color.as_str()));
}

#[test]
fn palette_has_ten_ansi_colors() {
    let colors = Colors::get_user_colors();
    assert_eq!(colors.len(), 10);
    assert_eq!(colors[0], "\x1b[31m");
    assert_eq!(colors[9], "\x1b[96m");
}

#[test]
fn color_by_index_wraps_around() {
    assert_eq!(Colors::get_color_by_index(0), Colors::RED);
    assert_eq!(Colors::get_color_by_index(10), Colors::RED);
    assert_eq!(Colors::get_color_by_index(13), Colors::MAGENTA);
}

#[test]
fn colorize_wraps_text_in_color_and_reset() {
    let line = Colors::colorize("hello", Colors::GREEN);
    assert_eq!(line, "\x1b[32mhello\x1b[0m");
}

#[test]
fn hex_to_rgb_reads_the_three_components() {
    assert_eq!(ColorGenerator::hex_to_rgb("#FF6B6B"), (255, 107, 107));
    assert_eq!(ColorGenerator::hex_to_rgb("00D9FF"), (0, 217, 255));
}

#[test]
fn hex_to_rgb_falls_back_to_gray_on_bad_length() {
    assert_eq!(ColorGenerator::hex_to_rgb("#FFF"), (128, 128, 128));
    assert_eq!(ColorGenerator::hex_to_rgb(""), (128, 128, 128));
}

#[test]
fn hex_to_rgb_reads_bad_digits_as_255() {
    assert_eq!(ColorGenerator::hex_to_rgb("#ZZ0000"), (255, 0, 0));
}

#[test]
fn hex_to_ansi_builds_truecolor_escape() {
    assert_eq!(ColorGenerator::hex_to_ansi("#FF6B6B"), "\x1b[38;2;255;107;107m");
}
