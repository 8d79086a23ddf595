//! Per-user display colours: a hex colour derived from the user's name by
//! hashing, and conversion of hex colours to ANSI escape sequences.
use crate::text::{dec_digits, u64_to_string};
use std::collections::hash_map::DefaultHasher;
use std::hash::Hasher;
use vstd::prelude::*;
use vstd::std_specs::hash::DefaultHasherAdditionalSpecFns;
use vstd::string::StringSliceAdditionalSpecFns;

verus! {

/// The hex colours handed out to users.
pub open spec fn hex_palette() -> Seq<Seq<char>> {
    seq![
        "#FF6B6B"@,
        "#4ECDC4"@,
        "#45B7D1"@,
        "#FFA07A"@,
        "#98D8C8"@,
        "#F7DC6F"@,
        "#BB8FCE"@,
        "#85C1E2"@,
        "#F8B739"@,
        "#52B788"@,
        "#FF8FA3"@,
        "#00D9FF"@,
    ]
}

/// The hash a name is reduced to: the standard hasher run over the name's
/// bytes followed by the `0xff` marker byte, as `str`'s `Hash` impl writes it.
pub open spec fn name_hash(bytes: Seq<u8>) -> u64 {
    DefaultHasher::spec_finish(seq![bytes, seq![0xffu8]])
}

/// The hex colour assigned to a name.
pub open spec fn user_color_spec(bytes: Seq<u8>) -> Seq<char> {
    hex_palette()[(name_hash(bytes) as int) % 12]
}

/// The value of a hex digit, or 16 for any other character.
pub open spec fn hex_val(c: char) -> int {
    if c == '0' {
        0
    } else if c == '1' {
        1
    } else if c == '2' {
        2
    } else if c == '3' {
        3
    } else if c == '4' {
        4
    } else if c == '5' {
        5
    } else if c == '6' {
        6
    } else if c == '7' {
        7
    } else if c == '8' {
        8
    } else if c == '9' {
        9
    } else if c == 'a' || c == 'A' {
        10
    } else if c == 'b' || c == 'B' {
        11
    } else if c == 'c' || c == 'C' {
        12
    } else if c == 'd' || c == 'D' {
        13
    } else if c == 'e' || c == 'E' {
        14
    } else if c == 'f' || c == 'F' {
        15
    } else {
        16
    }
}

pub open spec fn is_hex_digit(c: char) -> bool {
    hex_val(c) < 16
}

/// `s` with every leading `#` removed.
pub open spec fn strip_hashes(s: Seq<char>) -> Seq<char>
    decreases s.len(),
{
    if s.len() > 0 && s[0] == '#' {
        strip_hashes(s.drop_first())
    } else {
        s
    }
}

/// The byte encoded by the hex digit pair at `i`, or 255 if either
/// character is not a hex digit.
pub open spec fn hex_pair(s: Seq<char>, i: int) -> u8
    recommends
        0 <= i && i + 2 <= s.len(),
{
    if is_hex_digit(s[i]) && is_hex_digit(s[i + 1]) {
        (hex_val(s[i]) * 16 + hex_val(s[i + 1])) as u8
    } else {
        255u8
    }
}

/// The red, green and blue components read from the hex colour `s`:
/// `(128, 128, 128)` when, after leading `#`s are removed, six characters
/// do not remain.
pub open spec fn rgb_of_hex(s: Seq<char>) -> (u8, u8, u8) {
    let h = strip_hashes(s);
    if h.len() != 6 {
        (128u8, 128u8, 128u8)
    } else {
        (hex_pair(h, 0), hex_pair(h, 2), hex_pair(h, 4))
    }
}

/// The ANSI 24-bit foreground escape for the colour `(r, g, b)`.
pub open spec fn ansi_of_rgb(r: u8, g: u8, b: u8) -> Seq<char> {
    "\x1b[38;2;"@ + dec_digits(r as nat) + ";"@ + dec_digits(g as nat) + ";"@ + dec_digits(
        b as nat,
    ) + "m"@
}

pub struct ColorGenerator;

impl ColorGenerator {
    /// The hex colour for `username`: the same name always gets the same
    /// colour, chosen from the twelve-entry palette by hash.
    pub fn generate_user_color(username: &str) -> (r: String)
        ensures
            r@ == user_color_spec(username.spec_bytes()),
    {
        let mut hasher = DefaultHasher::new();
        hasher.write(username.as_bytes());
        let mut marker: Vec<u8> = Vec::new();
        marker.push(0xff);
        hasher.write(marker.as_slice());
        let hash = hasher.finish();
        proof {
            assert(marker@ =~= seq![0xffu8]);
            assert(hasher@ =~= seq![username.spec_bytes(), seq![0xffu8]]);
        }
        let idx = hash % 12;
        let lit = if idx == 0 {
            "#FF6B6B"
        } else if idx == 1 {
            "#4ECDC4"
        } else if idx == 2 {
            "#45B7D1"
        } else if idx == 3 {
            "#FFA07A"
        } else if idx == 4 {
            "#98D8C8"
        } else if idx == 5 {
            "#F7DC6F"
        } else if idx == 6 {
            "#BB8FCE"
        } else if idx == 7 {
            "#85C1E2"
        } else if idx == 8 {
            "#F8B739"
        } else if idx == 9 {
            "#52B788"
        } else if idx == 10 {
            "#FF8FA3"
        } else {
            "#00D9FF"
        };
        String::from_str(lit)
    }

    /// The red, green and blue components of the hex colour `hex`.
    pub fn hex_to_rgb(hex: &str) -> (r: (u8, u8, u8))
        ensures
            r == rgb_of_hex(hex@),
    {
        let n = hex.unicode_len();
        let mut a: usize = 0;
        proof {
            assert(hex@.subrange(0, n as int) =~= hex@);
        }
        while a < n && hex.get_char(a) == '#'
            invariant
                a <= n,
                n == hex@.len(),
                strip_hashes(hex@.subrange(a as int, n as int)) == strip_hashes(hex@),
            decreases n - a,
        {
            proof {
                let rest = hex@.subrange(a as int, n as int);
                assert(rest[0] == '#');
                assert(rest.drop_first() =~= hex@.subrange(a + 1, n as int));
            }
            a += 1;
        }
        let ghost h = hex@.subrange(a as int, n as int);
        proof {
            if a < n {
                assert(h[0] != '#');
            }
            assert(strip_hashes(h) == h);
        }
        if n - a != 6 {
            return (128, 128, 128);
        }
        let r = Self::hex_pair_at(hex, a);
        let g = Self::hex_pair_at(hex, a + 2);
        let b = Self::hex_pair_at(hex, a + 4);
        proof {
            assert(h.len() == 6);
            assert(h[0] == hex@[a as int] && h[1] == hex@[a + 1]);
            assert(h[2] == hex@[a + 2] && h[3] == hex@[a + 3]);
            assert(h[4] == hex@[a + 4] && h[5] == hex@[a + 5]);
        }
        (r, g, b)
    }

    /// The byte encoded by the two hex digits at `i`, or 255 if either
    /// character is not a hex digit.
    fn hex_pair_at(s: &str, i: usize) -> (r: u8)
        requires
            i + 2 <= s@.len(),
        ensures
            r == hex_pair(s@, i as int),
    {
        let n = s.unicode_len();
        let hi = Self::hex_digit_val(s.get_char(i));
        let lo = Self::hex_digit_val(s.get_char(i + 1));
        if hi < 16 && lo < 16 {
            hi * 16 + lo
        } else {
            255
        }
    }

    /// The value of the hex digit `c`, or 16 for any other character.
    fn hex_digit_val(c: char) -> (r: u8)
        ensures
            r as int == hex_val(c),
    {
        match c {
            '0' => 0,
            '1' => 1,
            '2' => 2,
            '3' => 3,
            '4' => 4,
            '5' => 5,
            '6' => 6,
            '7' => 7,
            '8' => 8,
            '9' => 9,
            'a' | 'A' => 10,
            'b' | 'B' => 11,
            'c' | 'C' => 12,
            'd' | 'D' => 13,
            'e' | 'E' => 14,
            'f' | 'F' => 15,
            _ => 16,
        }
    }

    /// The ANSI escape sequence that displays text in the hex colour `hex`.
    pub fn hex_to_ansi(hex: &str) -> (out: String)
        ensures
            ({
                let (r, g, b) = rgb_of_hex(hex@);
                out@ == ansi_of_rgb(r, g, b)
            }),
    {
        let (r, g, b) = Self::hex_to_rgb(hex);
        let mut out = String::from_str("\x1b[38;2;");
        let rs = u64_to_string(r as u64);
        out.append(rs.as_str());
        out.append(";");
        let gs = u64_to_string(g as u64);
        out.append(gs.as_str());
        out.append(";");
        let bs = u64_to_string(b as u64);
        out.append(bs.as_str());
        out.append("m");
        out
    }
}

} // verus!
