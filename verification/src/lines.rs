//! Splitting text into lines.
//!
//! A line ends at a line feed. A carriage return directly before that line
//! feed belongs to the line ending, not to the line. The last line may lack
//! its line feed; text that ends with a line feed has no further, empty line
//! after it, and empty text has no line at all.

use vstd::prelude::*;
use crate::text::{chars_of, string_of};

verus! {

/// The number of characters of `text` before its first line feed: the length
/// of `text` where it holds none.
pub open spec fn first_lf(text: Seq<char>) -> nat
    decreases text.len(),
{
    if text.len() == 0 || text[0] == '\n' {
        0
    } else {
        1 + first_lf(text.drop_first())
    }
}

/// `line` without the carriage return at its end, if it has one.
pub open spec fn strip_cr(line: Seq<char>) -> Seq<char> {
    if line.len() > 0 && line.last() == '\r' {
        line.drop_last()
    } else {
        line
    }
}

/// The lines of `text`, each without its line ending.
pub open spec fn lines_of(text: Seq<char>) -> Seq<Seq<char>>
    decreases text.len(),
{
    let k = first_lf(text) as int;
    if text.len() == 0 {
        Seq::empty()
    } else if k >= text.len() {
        seq![text]
    } else {
        seq![strip_cr(text.take(k))] + lines_of(text.skip(k + 1))
    }
}

/// `first_lf` is the one index with no line feed before it that is the end of
/// the text or the place of a line feed.
pub proof fn lemma_first_lf(text: Seq<char>, k: int)
    requires
        0 <= k <= text.len(),
        forall|j: int| 0 <= j < k ==> text[j] != '\n',
        k == text.len() || text[k] == '\n',
    ensures
        first_lf(text) == k,
    decreases k,
{
    if k > 0 {
        lemma_first_lf(text.drop_first(), k - 1);
    }
}

/// All that `first_lf` is: it lies within the text, no line feed stands before
/// it, and a line feed stands at it unless it is the end of the text.
pub proof fn lemma_first_lf_found(text: Seq<char>)
    ensures
        first_lf(text) <= text.len(),
        forall|j: int| 0 <= j < first_lf(text) ==> text[j] != '\n',
        first_lf(text) < text.len() ==> text[first_lf(text) as int] == '\n',
    decreases text.len(),
{
    if text.len() > 0 && text[0] != '\n' {
        let rest = text.drop_first();
        lemma_first_lf_found(rest);
        assert forall|j: int| 0 <= j < first_lf(text) implies text[j] != '\n' by {
            if j > 0 {
                assert(text[j] == rest[j - 1]);
            }
        }
    }
}

/// The number of line feeds in `text`.
pub open spec fn count_lf(text: Seq<char>) -> nat
    decreases text.len(),
{
    if text.len() == 0 {
        0
    } else if text[0] == '\n' {
        1 + count_lf(text.drop_first())
    } else {
        count_lf(text.drop_first())
    }
}

/// Whether characters follow the last line feed of `text`: an unfinished
/// last line.
pub open spec fn has_partial_line(text: Seq<char>) -> bool {
    text.len() > 0 && text.last() != '\n'
}

proof fn lemma_count_lf_skip(text: Seq<char>, k: int)
    requires
        0 <= k <= text.len(),
        forall|j: int| 0 <= j < k ==> text[j] != '\n',
    ensures
        count_lf(text) == count_lf(text.skip(k)),
    decreases k,
{
    if k == 0 {
        assert(text.skip(0) == text);
    } else {
        let rest = text.drop_first();
        lemma_count_lf_skip(rest, k - 1);
        assert(rest.skip(k - 1) == text.skip(k));
    }
}

/// Text has one line for every line feed in it, and one more if characters
/// follow the last line feed.
pub proof fn lemma_line_count(text: Seq<char>)
    ensures
        lines_of(text).len() == count_lf(text) + if has_partial_line(text) {
            1nat
        } else {
            0nat
        },
    decreases text.len(),
{
    if text.len() > 0 {
        let k = first_lf(text) as int;
        lemma_first_lf_found(text);
        lemma_count_lf_skip(text, k);
        if k < text.len() {
            let from_lf = text.skip(k);
            let rest = text.skip(k + 1);
            assert(from_lf.drop_first() == rest);
            lemma_line_count(rest);
            if rest.len() > 0 {
            }
        } else {
        }
    }
}

/// No line holds a line feed.
pub proof fn lemma_lines_hold_no_lf(text: Seq<char>, i: int, j: int)
    requires
        0 <= i < lines_of(text).len(),
        0 <= j < lines_of(text)[i].len(),
    ensures
        lines_of(text)[i][j] != '\n',
    decreases text.len(),
{
    let k = first_lf(text) as int;
    lemma_first_lf_found(text);
    if k < text.len() {
        if i > 0 {
            lemma_lines_hold_no_lf(text.skip(k + 1), i - 1, j);
        }
    }
}

/// Splits `text` into its lines.
pub fn split_lines(text: &str) -> (lines: Vec<String>)
    ensures
        lines.deep_view() == lines_of(text@),
{
    let chars = chars_of(text);
    let n = chars.len();
    let mut lines: Vec<String> = Vec::new();
    let mut start: usize = 0;
    assert(chars@.skip(0) == chars@);
    while start < n
        invariant
            start <= n,
            n == chars.len(),
            chars@ == text@,
            lines.deep_view() + lines_of(chars@.skip(start as int)) == lines_of(chars@),
        decreases n - start,
    {
        let mut end = start;
        while end < n && chars[end] != '\n'
            invariant
                start <= end <= n,
                n == chars.len(),
                forall|j: int| start <= j < end ==> chars@[j] != '\n',
            decreases n - end,
        {
            end = end + 1;
        }
        let ghost rest = chars@.skip(start as int);
        let ghost done = lines.deep_view();
        proof {
            lemma_first_lf(rest, end - start);
        }
        if end == n {
            let line = string_of(&chars, start, n);
            lines.push(line);
            start = n;
        } else {
            let stop = if end > start && chars[end - 1] == '\r' {
                end - 1
            } else {
                end
            };
            let line = string_of(&chars, start, stop);
            lines.push(line);
            proof {
                let whole = rest.take(end - start);
                assert(line@ == strip_cr(whole));
                assert(rest.skip(end - start + 1) == chars@.skip(end + 1));
                assert(done.push(line@) + lines_of(chars@.skip(end + 1)) == done + (seq![line@]
                    + lines_of(chars@.skip(end + 1))));
            }
            start = end + 1;
        }
    }
    lines
}

} // verus!
