//! The line structure of a text: which characters break lines, on which line
//! an offset lies, and where that line starts.

use vstd::prelude::*;

verus! {

/// Whether `c` is one of the characters that end a line.
pub open spec fn is_line_break(c: char) -> bool {
    ||| c == '\u{000A}'
    ||| c == '\u{000B}'
    ||| c == '\u{000C}'
    ||| c == '\u{000D}'
    ||| c == '\u{0085}'
    ||| c == '\u{2028}'
    ||| c == '\u{2029}'
}

/// Whether a line break ends just before index `k`, so that `k` starts a new
/// line. A carriage return directly followed by a line feed does not end a
/// line: the pair is one break, which ends after the line feed.
pub open spec fn break_ends_at(text: Seq<char>, k: int) -> bool {
    &&& 0 < k <= text.len()
    &&& is_line_break(text[k - 1])
    &&& !(text[k - 1] == '\u{000D}' && k < text.len() && text[k] == '\u{000A}')
}

/// The zero-based line on which offset `i` lies: the number of line breaks
/// that end at or before `i`.
pub open spec fn line_of(text: Seq<char>, i: int) -> nat
    decreases i,
{
    if i <= 0 {
        0
    } else {
        line_of(text, i - 1) + if break_ends_at(text, i) { 1nat } else { 0nat }
    }
}

/// The offset at which the line holding offset `i` starts.
pub open spec fn line_start_of(text: Seq<char>, i: int) -> int
    decreases i,
{
    if i <= 0 {
        0
    } else if break_ends_at(text, i) {
        i
    } else {
        line_start_of(text, i - 1)
    }
}

/// The zero-based column of offset `i` within its line.
pub open spec fn column_of(text: Seq<char>, i: int) -> nat {
    (i - line_start_of(text, i)) as nat
}

/// The number of lines of `text`; a text that ends in a line break has a last,
/// empty line.
pub open spec fn line_count(text: Seq<char>) -> nat {
    line_of(text, text.len() as int) + 1
}

/// Whether line `line` of `text` starts at offset `c`. The line one past the
/// last starts at the end of the text.
pub open spec fn starts_line(text: Seq<char>, line: int, c: int) -> bool {
    &&& 0 <= c <= text.len()
    &&& 0 <= line <= line_count(text)
    &&& if line == line_count(text) {
        c == text.len()
    } else {
        line_of(text, c) == line && (c == 0 || break_ends_at(text, c))
    }
}

/// Offsets further on lie on the same or a later line.
pub proof fn lemma_line_of_monotonic(text: Seq<char>, i: int, j: int)
    requires
        i <= j,
    ensures
        line_of(text, i) <= line_of(text, j),
    decreases j - i,
{
    if i < j {
        lemma_line_of_monotonic(text, i, j - 1);
    }
}

/// The line number of an offset is at most the offset.
pub proof fn lemma_line_of_bound(text: Seq<char>, i: int)
    requires
        0 <= i,
    ensures
        line_of(text, i) <= i,
    decreases i,
{
    if i > 0 {
        lemma_line_of_bound(text, i - 1);
    }
}

/// The start of the line that holds `i` is at or before `i`, lies on the same
/// line, and is the start of the text or directly follows a line break.
pub proof fn lemma_line_start_of(text: Seq<char>, i: int)
    requires
        0 <= i <= text.len(),
    ensures
        0 <= line_start_of(text, i) <= i,
        line_of(text, line_start_of(text, i)) == line_of(text, i),
        line_start_of(text, i) == 0 || break_ends_at(text, line_start_of(text, i)),
    decreases i,
{
    if i > 0 && !break_ends_at(text, i) {
        lemma_line_start_of(text, i - 1);
    }
}

/// Two different line starts lie on different lines.
pub proof fn lemma_line_starts_differ(text: Seq<char>, a: int, b: int)
    requires
        0 <= a < b <= text.len(),
        break_ends_at(text, b),
    ensures
        line_of(text, a) < line_of(text, b),
{
    lemma_line_of_monotonic(text, a, b - 1);
}

/// A line has one start: an offset that starts the line on which `i` lies is
/// the start of the line that holds `i`.
pub proof fn lemma_starts_line_unique(text: Seq<char>, i: int, c: int)
    requires
        0 <= i <= text.len(),
        starts_line(text, line_of(text, i) as int, c),
    ensures
        c == line_start_of(text, i),
{
    lemma_line_of_monotonic(text, i, text.len() as int);
    lemma_line_start_of(text, i);
    let s = line_start_of(text, i);
    if c < s {
        lemma_line_starts_differ(text, c, s);
    } else if s < c {
        lemma_line_starts_differ(text, s, c);
    }
}

} // verus!
