//! ANSI colour codes and helpers for colouring terminal output.
use vstd::prelude::*;

verus! {

/// The ANSI codes handed out to users, in rotation order.
pub open spec fn user_palette() -> Seq<Seq<char>> {
    seq![
        "\x1b[31m"@,
        "\x1b[32m"@,
        "\x1b[34m"@,
        "\x1b[35m"@,
        "\x1b[36m"@,
        "\x1b[91m"@,
        "\x1b[92m"@,
        "\x1b[94m"@,
        "\x1b[95m"@,
        "\x1b[96m"@,
    ]
}

/// The view of the ANSI reset code.
pub open spec fn reset_seq() -> Seq<char> {
    "\x1b[0m"@
}

/// `text` wrapped in `color` and the ANSI reset code.
pub open spec fn colorize_spec(text: Seq<char>, color: Seq<char>) -> Seq<char> {
    color + text + reset_seq()
}

pub struct Colors;

impl Colors {
    pub const RESET: &'static str = "\x1b[0m";

    pub const BOLD: &'static str = "\x1b[1m";

    pub const RED: &'static str = "\x1b[31m";

    pub const GREEN: &'static str = "\x1b[32m";

    pub const YELLOW: &'static str = "\x1b[33m";

    pub const BLUE: &'static str = "\x1b[34m";

    pub const MAGENTA: &'static str = "\x1b[35m";

    pub const CYAN: &'static str = "\x1b[36m";

    pub const WHITE: &'static str = "\x1b[37m";

    pub const BRIGHT_RED: &'static str = "\x1b[91m";

    pub const BRIGHT_GREEN: &'static str = "\x1b[92m";

    pub const BRIGHT_YELLOW: &'static str = "\x1b[93m";

    pub const BRIGHT_BLUE: &'static str = "\x1b[94m";

    pub const BRIGHT_MAGENTA: &'static str = "\x1b[95m";

    pub const BRIGHT_CYAN: &'static str = "\x1b[96m";

    pub const SYSTEM: &'static str = "\x1b[93m";

    pub const WHISPER: &'static str = "\x1b[95m";

    pub const ERROR: &'static str = "\x1b[91m";

    pub const SUCCESS: &'static str = "\x1b[92m";

    pub const INFO: &'static str = "\x1b[96m";

    /// The rotation palette for user names.
    pub fn get_user_colors() -> (r: Vec<&'static str>)
        ensures
            r.deep_view() == user_palette(),
    {
        let v = vec![
            Self::RED,
            Self::GREEN,
            Self::BLUE,
            Self::MAGENTA,
            Self::CYAN,
            Self::BRIGHT_RED,
            Self::BRIGHT_GREEN,
            Self::BRIGHT_BLUE,
            Self::BRIGHT_MAGENTA,
            Self::BRIGHT_CYAN,
        ];
        proof {
            assert(v.deep_view() =~= user_palette());
        }
        v
    }

    /// The palette entry for `index`, wrapping past the palette's end.
    pub fn get_color_by_index(index: usize) -> (r: &'static str)
        ensures
            r@ == user_palette()[(index as int) % 10],
    {
        let colors = Self::get_user_colors();
        proof {
            assert(colors@.len() == colors.deep_view().len());
            assert(colors.deep_view().len() == 10);
        }
        let i = index % colors.len();
        let c = colors[i];
        proof {
            assert(colors.deep_view()[i as int] == colors@[i as int]@);
        }
        c
    }

    /// `text` wrapped in `color` and the reset code.
    pub fn colorize(text: &str, color: &str) -> (r: String)
        ensures
            r@ == colorize_spec(text@, color@),
    {
        let mut out = String::from_str(color);
        out.append(text);
        out.append(Self::RESET);
        out
    }
}

} // verus!
