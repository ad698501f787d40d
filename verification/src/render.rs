//! Plain values of the edge indicator: which edges show, gradient direction, and the
//! colours written as `#rrggbb`.
use vstd::prelude::*;
use vstd::string::*;
use crate::text::{trim, trim_str};

verus! {

/// Which edges the indicator shows.
#[derive(Debug, Clone, Copy, PartialEq, Eq, Structural)]
pub struct EdgePulseRenderState {
    pub show_left: bool,
    pub show_right: bool,
}

/// Which edges a layer surface draws.
#[derive(Debug, Clone, Copy, PartialEq, Eq, Structural)]
pub struct EdgeVisibility {
    pub left: bool,
    pub right: bool,
}

impl EdgeVisibility {
    /// The edges the indicator state asks for.
    pub fn from_state(state: EdgePulseRenderState) -> (r: Self)
        ensures
            r.left == state.show_left,
            r.right == state.show_right,
    {
        EdgeVisibility { left: state.show_left, right: state.show_right }
    }
}

/// Direction of a linear gradient.
#[derive(Debug, Clone, Copy, PartialEq, Eq, Structural)]
pub enum GradientDirection {
    Horizontal,
    Vertical,
}

/// Bytes that `c` takes in UTF-8.
pub open spec fn utf8_width(c: char) -> nat {
    let u = c as u32;
    if u < 0x80 {
        1
    } else if u < 0x800 {
        2
    } else if u < 0x10000 {
        3
    } else {
        4
    }
}

/// Bytes that `s` takes in UTF-8.
pub open spec fn utf8_len(s: Seq<char>) -> nat
    decreases s.len(),
{
    if s.len() == 0 {
        0
    } else {
        utf8_len(s.drop_last()) + utf8_width(s.last())
    }
}

/// Byte offset `b` falls between two characters of `s`.
pub open spec fn on_boundary(s: Seq<char>, b: nat) -> bool {
    exists|k: int| 0 <= k <= s.len() && #[trigger] utf8_len(s.take(k)) == b
}

/// The text after `#` of a trimmed colour, when it starts with `#`.
pub open spec fn hex_body(s: Seq<char>) -> Option<Seq<char>> {
    let t = trim(s);
    if t.len() > 0 && t[0] == '#' {
        Some(t.drop_first())
    } else {
        None
    }
}

/// A colour whose six bytes of digits can be cut into pairs between characters.
pub open spec fn slices_cleanly(s: Seq<char>) -> bool {
    match hex_body(s) {
        Some(b) => utf8_len(b) == 6 ==> on_boundary(b, 2) && on_boundary(b, 4),
        None => true,
    }
}

/// Value of a hexadecimal digit (either case).
pub open spec fn hex_digit(c: char) -> Option<u8> {
    if '0' <= c && c <= '9' {
        Some(((c as u32) - ('0' as u32)) as u8)
    } else if 'a' <= c && c <= 'f' {
        Some(((c as u32) - ('a' as u32) + 10) as u8)
    } else if 'A' <= c && c <= 'F' {
        Some(((c as u32) - ('A' as u32) + 10) as u8)
    } else {
        None
    }
}

/// A two-character byte in base 16: two digits, or `+` and one digit.
pub open spec fn hex_byte(a: char, b: char) -> Option<u8> {
    if a == '+' {
        hex_digit(b)
    } else {
        match (hex_digit(a), hex_digit(b)) {
            (Some(x), Some(y)) => Some((16 * x + y) as u8),
            _ => None,
        }
    }
}

/// The red, green and blue bytes of a colour written `#rrggbb` (surrounding whitespace allowed).
pub open spec fn rgb_of(s: Seq<char>) -> Option<(u8, u8, u8)> {
    match hex_body(s) {
        Some(b) => if b.len() == 6 {
            match (hex_byte(b[0], b[1]), hex_byte(b[2], b[3]), hex_byte(b[4], b[5])) {
                (Some(r), Some(g), Some(bl)) => Some((r, g, bl)),
                _ => None,
            }
        } else {
            None
        },
        None => None,
    }
}

fn hex_digit_exec(c: char) -> (r: Option<u8>)
    ensures
        r == hex_digit(c),
{
    if '0' <= c && c <= '9' {
        Some(((c as u32) - ('0' as u32)) as u8)
    } else if 'a' <= c && c <= 'f' {
        Some(((c as u32) - ('a' as u32) + 10) as u8)
    } else if 'A' <= c && c <= 'F' {
        Some(((c as u32) - ('A' as u32) + 10) as u8)
    } else {
        None
    }
}

fn hex_byte_exec(a: char, b: char) -> (r: Option<u8>)
    ensures
        r == hex_byte(a, b),
{
    if a == '+' {
        hex_digit_exec(b)
    } else {
        match (hex_digit_exec(a), hex_digit_exec(b)) {
            (Some(x), Some(y)) => Some(16 * x + y),
            _ => None,
        }
    }
}

/// The bytes of a colour written `#rrggbb`; each channel is its byte over 255.
pub fn rgb_from_hex(hex: &str) -> (r: Option<(u8, u8, u8)>)
    requires
        slices_cleanly(hex@),
    ensures
        r == rgb_of(hex@),
{
    let t = trim_str(hex);
    let ts = t.as_str();
    let n = ts.unicode_len();
    if n != 7 || ts.get_char(0) != '#' {
        return None;
    }
    let body = ts.substring_char(1, 7);
    assert(body@ == trim(hex@).drop_first());
    let r = hex_byte_exec(body.get_char(0), body.get_char(1));
    let g = hex_byte_exec(body.get_char(2), body.get_char(3));
    let b = hex_byte_exec(body.get_char(4), body.get_char(5));
    match (r, g, b) {
        (Some(r), Some(g), Some(b)) => Some((r, g, b)),
        _ => None,
    }
}

} // verus!
