//! The formatting pass: from the bytes of a file to the units that are shown
//! for it, one per output line, and the line that reports on the file.
//!
//! Colour and line numbers are two independent switches. Without either, the
//! decoded text is the one unit. With line numbers the text is split into
//! lines, and every line is a unit that begins with its number. With a colour
//! every piece of a unit is painted on its own: the whole text, or a number
//! prefix and a line. Empty text gives no unit in any mode.

use vstd::prelude::*;
use vstd::string::{StrSliceExecFns, StringExecFns};
use vstd::utf8::{decode_utf8, valid_utf8};
use crate::color::{framed, holds_reset, paint, painted, sgr_reset, Rgb};
use crate::lines::{count_lf, has_partial_line, lemma_line_count, lines_of, split_lines};
use crate::text::{decimal, digit_char, push_decimal};

verus! {

/// The text that `String::from_utf8_lossy` makes of `bytes`: the characters
/// that the bytes encode in UTF-8, with U+FFFD wherever they encode none.
pub uninterp spec fn lossy_utf8(bytes: Seq<u8>) -> Seq<char>;

/// Decodes `bytes` by `String::from_utf8_lossy`, which never fails.
///
/// The contract names the result and adds what the documentation of std says
/// of well-formed input: it is decoded as it stands. Nothing here is proved.
#[verifier::external_body]
pub(crate) fn decode_lossy(bytes: &[u8]) -> (text: String)
    ensures
        text@ == lossy_utf8(bytes@),
        valid_utf8(bytes@) ==> text@ == decode_utf8(bytes@),
{
    String::from_utf8_lossy(bytes).into_owned()
}

/// `count` spaces.
pub open spec fn spaces(count: nat) -> Seq<char> {
    Seq::new(count, |i: int| ' ')
}

/// `s` moved to the right edge of a field of `width` characters. A longer
/// `s` is left as it is.
pub open spec fn right_aligned(s: Seq<char>, width: nat) -> Seq<char> {
    if s.len() < width {
        spaces((width - s.len()) as nat) + s
    } else {
        s
    }
}

/// What stands before line `number`: the number in decimal, right-aligned in
/// four characters, then a colon and a space.
pub open spec fn line_prefix(number: nat) -> Seq<char> {
    right_aligned(decimal(number), 4) + seq![':', ' ']
}

/// Every line behind the prefix of its number, the first line being line 1.
pub open spec fn numbered(lines: Seq<Seq<char>>) -> Seq<Seq<char>> {
    Seq::new(lines.len(), |i: int| line_prefix((i + 1) as nat) + lines[i])
}

/// The units shown for `text` without a colour.
pub open spec fn plain_content(text: Seq<char>, show_line_numbers: bool) -> Seq<Seq<char>> {
    if show_line_numbers {
        numbered(lines_of(text))
    } else if text.len() == 0 {
        Seq::empty()
    } else {
        seq![text]
    }
}

/// `unit` is line `number` in `color`: the painted prefix directly followed by
/// the painted line.
pub open spec fn colored_line(number: nat, line: Seq<char>, color: Rgb, unit: Seq<char>) -> bool {
    exists|prefix: Seq<char>, body: Seq<char>|
        #![trigger framed(line_prefix(number), color, prefix), painted(line, color, body)]
        framed(line_prefix(number), color, prefix) && painted(line, color, body) && unit == prefix
            + body
}

/// `units` may be shown for `text` in `color`.
pub open spec fn colored_content(
    text: Seq<char>,
    show_line_numbers: bool,
    color: Rgb,
    units: Seq<Seq<char>>,
) -> bool {
    if show_line_numbers {
        &&& units.len() == lines_of(text).len()
        &&& forall|i: int|
            0 <= i < units.len() ==> colored_line(
                (i + 1) as nat,
                lines_of(text)[i],
                color,
                #[trigger] units[i],
            )
    } else if text.len() == 0 {
        units.len() == 0
    } else {
        units.len() == 1 && painted(text, color, units[0])
    }
}

/// `units` may be shown for `text` under the two switches. Without a colour
/// exactly one value of `units` fits.
pub open spec fn renders(
    text: Seq<char>,
    color: Option<Rgb>,
    show_line_numbers: bool,
    units: Seq<Seq<char>>,
) -> bool {
    match color {
        None => units == plain_content(text, show_line_numbers),
        Some(c) => colored_content(text, show_line_numbers, c, units),
    }
}

/// The line that reports a file read to its end.
pub open spec fn status_text(path: Seq<char>, bytes_read: nat) -> Seq<char> {
    "finished reading "@ + path + ": "@ + decimal(bytes_read) + " bytes"@
}

/// The line that reports a file that could not be read.
pub open spec fn error_text(path: Seq<char>, detail: Seq<char>) -> Seq<char> {
    "Error reading "@ + path + ": "@ + detail
}

/// No decimal digit is the escape character.
proof fn lemma_decimal_plain(n: nat)
    ensures
        forall|i: int| 0 <= i < decimal(n).len() ==> #[trigger] decimal(n)[i] != '\x1b',
    decreases n,
{
    let d = if n < 10 { n } else { n % 10 };
    assert(digit_char(d) != '\x1b') by {
        assert(d == 0 || d == 1 || d == 2 || d == 3 || d == 4 || d == 5 || d == 6 || d == 7 || d == 8
            || d == 9);
    }
    if n >= 10 {
        lemma_decimal_plain(n / 10);
    }
    assert forall|i: int| 0 <= i < decimal(n).len() implies #[trigger] decimal(n)[i] != '\x1b' by {
        if n >= 10 && i < decimal(n / 10).len() {
            assert(decimal(n)[i] == decimal(n / 10)[i]);
        } else {
            assert(decimal(n)[i] == digit_char(d));
        }
    }
}

/// A line prefix holds no reset sequence.
pub proof fn lemma_prefix_holds_no_reset(number: nat)
    ensures
        !holds_reset(line_prefix(number)),
{
    let prefix = line_prefix(number);
    lemma_decimal_plain(number);
    assert forall|i: int| 0 <= i < prefix.len() implies prefix[i] != '\x1b' by {}
    assert forall|i: int| 0 <= i && i + 4 <= prefix.len() implies #[trigger] prefix.subrange(
        i,
        i + 4,
    ) != sgr_reset() by {}
}

/// Without colour and line numbers, formatting adds nothing: the units,
/// joined, are the text.
pub proof fn lemma_plain_round_trip(text: Seq<char>)
    ensures
        plain_content(text, false).flatten() == text,
{
    let units = plain_content(text, false);
    if text.len() > 0 {
        units.lemma_flatten_one_element();
    }
}

/// Line numbers are right. Numbered text has one unit for every line feed in
/// it, and one more if characters follow the last line feed. The units carry
/// the numbers 1, 2, 3 and so on in order, each before its own line, and no
/// prefix is shorter than four characters, a colon and a space.
pub proof fn lemma_line_numbers(text: Seq<char>)
    ensures
        plain_content(text, true).len() == count_lf(text) + if has_partial_line(text) {
            1nat
        } else {
            0nat
        },
        forall|i: int|
            0 <= i < plain_content(text, true).len() ==> #[trigger] plain_content(text, true)[i]
                == line_prefix((i + 1) as nat) + lines_of(text)[i],
        forall|number: nat| (#[trigger] line_prefix(number)).len() >= 6,
        forall|number: nat|
            decimal(number).len() >= 4 ==> #[trigger] line_prefix(number) == decimal(number)
                + seq![':', ' '],
{
    lemma_line_count(text);
}

/// The same text under the same switches is shown in the same number of
/// units, and without a colour in the same units.
pub proof fn lemma_rendering_is_determined(
    text: Seq<char>,
    color: Option<Rgb>,
    show_line_numbers: bool,
    first: Seq<Seq<char>>,
    second: Seq<Seq<char>>,
)
    requires
        renders(text, color, show_line_numbers, first),
        renders(text, color, show_line_numbers, second),
    ensures
        first.len() == second.len(),
        first.len() == plain_content(text, show_line_numbers).len(),
        color is None ==> first == second,
{
}

/// The prefix of line `number`.
pub fn number_prefix(number: usize) -> (prefix: String)
    ensures
        prefix@ == line_prefix(number as nat),
{
    let mut digits = String::new();
    push_decimal(&mut digits, number);
    let len = digits.as_str().unicode_len();
    let mut prefix = String::new();
    let mut width: usize = len;
    while width < 4
        invariant
            len <= width,
            len < 4 ==> width <= 4,
            len >= 4 ==> width == len,
            prefix@ == spaces((width - len) as nat),
        decreases 4 - width,
    {
        prefix.push(' ');
        width = width + 1;
    }
    prefix.append(digits.as_str());
    prefix.push(':');
    prefix.push(' ');
    prefix
}

/// Lays out decoded `text` as the units to show for it, under the two
/// switches.
pub fn render_content(text: &str, color: Option<Rgb>, show_line_numbers: bool) -> (units: Vec<
    String,
>)
    ensures
        renders(text@, color, show_line_numbers, units.deep_view()),
{
    let mut units: Vec<String> = Vec::new();
    if show_line_numbers {
        let lines = split_lines(text);
        let mut i: usize = 0;
        while i < lines.len()
            invariant
                i <= lines.len(),
                units.len() == i,
                lines.deep_view() == lines_of(text@),
                color is None ==> forall|j: int|
                    0 <= j < i ==> #[trigger] units.deep_view()[j] == line_prefix((j + 1) as nat)
                        + lines_of(text@)[j],
                color matches Some(c) ==> forall|j: int|
                    0 <= j < i ==> colored_line(
                        (j + 1) as nat,
                        lines_of(text@)[j],
                        c,
                        #[trigger] units.deep_view()[j],
                    ),
            decreases lines.len() - i,
        {
            let prefix = number_prefix(i + 1);
            let line = lines[i].as_str();
            let ghost before = units.deep_view();
            let unit = match color {
                None => prefix.concat(line),
                Some(c) => {
                    let shown_prefix = paint(prefix.as_str(), c);
                    let shown_line = paint(line, c);
                    proof {
                        lemma_prefix_holds_no_reset((i + 1) as nat);
                    }
                    shown_prefix.concat(shown_line.as_str())
                },
            };
            units.push(unit);
            assert(units.deep_view() == before.push(unit@));
            i = i + 1;
        }
        assert(color is None ==> units.deep_view() == numbered(lines_of(text@)));
    } else if !text.is_empty() {
        let unit = match color {
            None => text.to_owned(),
            Some(c) => paint(text, c),
        };
        units.push(unit);
        assert(color is None ==> units.deep_view() == seq![text@]);
    } else {
        assert(units.deep_view() == Seq::<Seq<char>>::empty());
    }
    units
}

/// The status line of a file read to its end: the path it was called by and
/// the number of bytes read from it.
pub fn status_line(path: &str, bytes_read: usize) -> (line: String)
    ensures
        line@ == status_text(path@, bytes_read as nat),
{
    let mut line = String::new();
    line.append("finished reading ");
    line.append(path);
    line.append(": ");
    push_decimal(&mut line, bytes_read);
    line.append(" bytes");
    assert(line@ == Seq::<char>::empty() + "finished reading "@ + path@ + ": "@ + decimal(
        bytes_read as nat,
    ) + " bytes"@);
    line
}

/// The line for a file that could not be read: its path, and what went wrong.
pub fn error_line(path: &str, detail: &str) -> (line: String)
    ensures
        line@ == error_text(path@, detail@),
{
    let mut line = String::new();
    line.append("Error reading ");
    line.append(path);
    line.append(": ");
    line.append(detail);
    line
}

/// Everything shown for a file read to its end: the units of its content,
/// then its status line. The status line is neither numbered nor painted, and
/// counts the bytes as read, not as shown.
pub fn render_file(path: &str, bytes: &[u8], color: Option<Rgb>, show_line_numbers: bool) -> (out:
    Vec<String>)
    ensures
        out.len() >= 1,
        out.deep_view().last() == status_text(path@, bytes@.len()),
        renders(lossy_utf8(bytes@), color, show_line_numbers, out.deep_view().drop_last()),
        valid_utf8(bytes@) ==> renders(
            decode_utf8(bytes@),
            color,
            show_line_numbers,
            out.deep_view().drop_last(),
        ),
        bytes@.len() == 0 ==> out.len() == 1,
{
    let text = decode_lossy(bytes);
    let mut out = render_content(text.as_str(), color, show_line_numbers);
    let ghost content = out.deep_view();
    let status = status_line(path, bytes.len());
    out.push(status);
    assert(out.deep_view().drop_last() == content);
    out
}

} // verus!
