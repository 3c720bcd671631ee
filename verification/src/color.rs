//! Colours: the six-digit hexadecimal code that names one, the three
//! channels it stands for, and text wrapped in it for a terminal.

use vstd::prelude::*;
use vstd::string::StrSliceExecFns;
use crate::text::decimal;

verus! {

/// An ASCII hexadecimal digit: `0-9`, `a-f` or `A-F`.
pub open spec fn is_hex_digit(c: char) -> bool {
    ('0' <= c && c <= '9') || ('a' <= c && c <= 'f') || ('A' <= c && c <= 'F')
}

/// A well-formed colour code: exactly six characters, each a hexadecimal digit.
pub open spec fn valid_hex_color(code: Seq<char>) -> bool {
    code.len() == 6 && forall|i: int| 0 <= i < code.len() ==> is_hex_digit(#[trigger] code[i])
}

/// The number that a hexadecimal digit stands for.
pub open spec fn hex_value(c: char) -> int {
    if '0' <= c && c <= '9' {
        c as int - '0' as int
    } else if 'a' <= c && c <= 'f' {
        c as int - 'a' as int + 10
    } else {
        c as int - 'A' as int + 10
    }
}

/// The number that two hexadecimal digits stand for, the first one weighing sixteen.
pub open spec fn hex_pair(high: char, low: char) -> int {
    16 * hex_value(high) + hex_value(low)
}

/// A colour as three eight-bit channels.
#[derive(Clone, Copy, Debug, PartialEq, Eq, Structural)]
pub struct Rgb {
    pub r: u8,
    pub g: u8,
    pub b: u8,
}

/// The colour that a well-formed code names: red, green and blue are its
/// first, second and third pair of digits.
pub open spec fn rgb_of(code: Seq<char>) -> Rgb {
    Rgb {
        r: hex_pair(code[0], code[1]) as u8,
        g: hex_pair(code[2], code[3]) as u8,
        b: hex_pair(code[4], code[5]) as u8,
    }
}

fn hex_digit(c: char) -> (ok: bool)
    ensures
        ok == is_hex_digit(c),
{
    ('0' <= c && c <= '9') || ('a' <= c && c <= 'f') || ('A' <= c && c <= 'F')
}

fn hex_digit_value(c: char) -> (v: u8)
    requires
        is_hex_digit(c),
    ensures
        v == hex_value(c),
        v < 16,
{
    if '0' <= c && c <= '9' {
        (c as u32 - '0' as u32) as u8
    } else if 'a' <= c && c <= 'f' {
        (c as u32 - 'a' as u32 + 10) as u8
    } else {
        (c as u32 - 'A' as u32 + 10) as u8
    }
}

fn hex_pair_value(high: char, low: char) -> (v: u8)
    requires
        is_hex_digit(high),
        is_hex_digit(low),
    ensures
        v == hex_pair(high, low),
{
    16 * hex_digit_value(high) + hex_digit_value(low)
}

/// Tells whether `code` is a colour code: six hexadecimal digits, in either case.
pub fn is_valid_hex_color(code: &str) -> (ok: bool)
    ensures
        ok == valid_hex_color(code@),
{
    if code.unicode_len() != 6 {
        return false;
    }
    let mut i: usize = 0;
    while i < 6
        invariant
            i <= 6,
            code@.len() == 6,
            forall|j: int| 0 <= j < i ==> is_hex_digit(#[trigger] code@[j]),
        decreases 6 - i,
    {
        if !hex_digit(code.get_char(i)) {
            return false;
        }
        i = i + 1;
    }
    true
}

impl Rgb {
    /// Reads a colour code. A code that is not well formed names no colour.
    pub fn parse(code: &str) -> (color: Option<Rgb>)
        ensures
            valid_hex_color(code@) ==> color == Some(rgb_of(code@)),
            !valid_hex_color(code@) ==> color is None,
    {
        if !is_valid_hex_color(code) {
            return None;
        }
        let r = hex_pair_value(code.get_char(0), code.get_char(1));
        let g = hex_pair_value(code.get_char(2), code.get_char(3));
        let b = hex_pair_value(code.get_char(4), code.get_char(5));
        Some(Rgb { r, g, b })
    }
}

/// The sequence that ends every colouring on a terminal: `ESC [ 0 m`.
pub open spec fn sgr_reset() -> Seq<char> {
    seq!['\x1b', '[', '0', 'm']
}

/// Whether the reset sequence occurs somewhere in `text`.
pub open spec fn holds_reset(text: Seq<char>) -> bool {
    exists|i: int| 0 <= i && i + 4 <= text.len() && #[trigger] text.subrange(i, i + 4) == sgr_reset()
}

/// The parameters that select `color` as a 24-bit foreground colour:
/// `38;2;` and the three channels in decimal, separated by `;`.
pub open spec fn truecolor_params(color: Rgb) -> Seq<char> {
    seq!['3', '8', ';', '2', ';'] + decimal(color.r as nat) + seq![';'] + decimal(color.g as nat)
        + seq![';'] + decimal(color.b as nat)
}

/// The parameters that select one of the sixteen basic foreground colours:
/// `30` to `37` and `90` to `97`.
pub open spec fn basic_params(params: Seq<char>) -> bool {
    params.len() == 2 && (params[0] == '3' || params[0] == '9') && '0' <= params[1] && params[1]
        <= '7'
}

/// `lead` is a sequence `ESC [ params m` that selects `color`, or the basic
/// colour that a terminal without 24-bit colours gets in its place.
pub open spec fn selects_color(lead: Seq<char>, color: Rgb) -> bool {
    let params = lead.subrange(2, lead.len() - 1);
    lead.len() >= 3 && lead[0] == '\x1b' && lead[1] == '[' && lead.last() == 'm' && (params
        == truecolor_params(color) || basic_params(params))
}

/// `text` with `lead` before it and `trail` after it.
pub open spec fn frame(lead: Seq<char>, text: Seq<char>, trail: Seq<char>) -> Seq<char> {
    lead + text + trail
}

/// `shown` is `text` between a part that selects `color`, or nothing, and the
/// reset sequence, or nothing.
pub open spec fn framed(text: Seq<char>, color: Rgb, shown: Seq<char>) -> bool {
    exists|lead: Seq<char>, trail: Seq<char>|
        shown == #[trigger] frame(lead, text, trail) && (lead.len() == 0 || selects_color(
            lead,
            color,
        )) && (trail.len() == 0 || trail == sgr_reset())
}

/// `shown` may be what painting `text` in `color` gives. Text that holds no
/// reset sequence comes back framed; of other text nothing is known.
pub open spec fn painted(text: Seq<char>, color: Rgb, shown: Seq<char>) -> bool {
    holds_reset(text) || framed(text, color, shown)
}

/// Wraps `text` in `color` for display, by `colored`'s `Colorize::truecolor`
/// and the `Display` of the `ColoredString` it returns.
///
/// Whether `colored` writes escape sequences at all, and whether it keeps the
/// 24-bit colour or falls back to the nearest basic one, depends on the
/// process environment, so the contract only bounds the result: text without
/// a reset sequence inside comes back unchanged or between a sequence that
/// selects the colour and the reset sequence. Nothing here is proved.
#[verifier::external_body]
pub(crate) fn paint(text: &str, color: Rgb) -> (shown: String)
    ensures
        painted(text@, color, shown@),
{
    colored::Colorize::truecolor(text, color.r, color.g, color.b).to_string()
}

} // verus!
