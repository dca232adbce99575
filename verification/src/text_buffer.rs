//! The text of one document, held in a rope, and the conversion between
//! offsets and line/column positions.

use ropey::Rope;
use vstd::prelude::*;

use crate::lines::{
    column_of, lemma_line_of_bound, lemma_line_of_monotonic, lemma_line_start_of,
    lemma_starts_line_unique, line_count, line_of, line_start_of, starts_line,
};
use crate::position::Position;

verus! {

/// `ropey::Rope`, opaque to the verifier.
#[verifier::external_type_specification]
#[verifier::external_body]
pub struct ExRope(ropey::Rope);

/// `ropey::Error`, opaque to the verifier.
#[verifier::external_type_specification]
#[verifier::external_body]
pub struct ExRopeError(ropey::Error);

/// The characters that a rope holds, in order.
pub uninterp spec fn rope_text(rope: Rope) -> Seq<char>;

/// `Rope::from_str` builds a rope that holds the characters of `text`.
pub assume_specification[ Rope::from_str ](text: &str) -> (rope: Rope)
    ensures
        rope_text(rope) == text@,
;

/// `Rope::len_chars` is the number of characters held.
pub assume_specification[ Rope::len_chars ](rope: &Rope) -> (n: usize)
    ensures
        n == rope_text(*rope).len(),
;

/// `Rope::try_char_to_line` accepts every index up to and including the
/// length, and gives the number of line breaks that end at or before it.
pub assume_specification[ Rope::try_char_to_line ](rope: &Rope, char_idx: usize) -> (r: Result<
    usize,
    ropey::Error,
>)
    ensures
        r is Ok <==> char_idx <= rope_text(*rope).len(),
        r matches Ok(line) ==> line == line_of(rope_text(*rope), char_idx as int),
;

/// `Rope::try_line_to_char` accepts every line index up to and including the
/// line count, and gives the index of the first character of that line; for
/// the line count itself, the length of the text.
pub assume_specification[ Rope::try_line_to_char ](rope: &Rope, line_idx: usize) -> (r: Result<
    usize,
    ropey::Error,
>)
    ensures
        r is Ok <==> line_idx <= line_count(rope_text(*rope)),
        r matches Ok(c) ==> starts_line(rope_text(*rope), line_idx as int, c as int),
;

/// The full current text of one document.
pub struct TextBuffer {
    rope: Rope,
}

impl View for TextBuffer {
    type V = Seq<char>;

    closed spec fn view(&self) -> Seq<char> {
        rope_text(self.rope)
    }
}

/// The position of `offset` in `text`, for an offset up to and including the
/// length of the text.
pub open spec fn position_at(text: Seq<char>, offset: int) -> Option<Position> {
    if 0 <= offset <= text.len() {
        Some(
            Position {
                line: line_of(text, offset) as usize,
                character: column_of(text, offset) as usize,
            },
        )
    } else {
        None
    }
}

/// The offset in `text` that lies at `position`, if there is one.
pub open spec fn offset_at(text: Seq<char>, position: Position) -> Option<int> {
    if exists|o: int| position_at(text, o) == Some(position) {
        Some(choose|o: int| position_at(text, o) == Some(position))
    } else {
        None
    }
}

impl TextBuffer {
    /// A buffer that holds `text`.
    pub fn from_str(text: &str) -> (buffer: TextBuffer)
        ensures
            buffer@ == text@,
    {
        TextBuffer::from_rope(Rope::from_str(text))
    }

    /// The buffer whose text is the text of `rope`.
    pub(crate) fn from_rope(rope: Rope) -> (buffer: TextBuffer)
        ensures
            buffer@ == rope_text(rope),
    {
        TextBuffer { rope }
    }

    /// The rope that holds the text of the buffer.
    pub(crate) fn into_rope(self) -> (rope: Rope)
        ensures
            rope_text(rope) == self@,
    {
        self.rope
    }

    /// The number of characters in the buffer.
    pub fn len_chars(&self) -> (n: usize)
        ensures
            n == self@.len(),
    {
        self.rope.len_chars()
    }
}

/// The line and column of `offset` in `buffer`, or `None` for an offset past
/// the end of the text.
pub fn offset_to_position(offset: usize, buffer: &TextBuffer) -> (r: Option<Position>)
    ensures
        r == position_at(buffer@, offset as int),
{
    let line: usize = match buffer.rope.try_char_to_line(offset) {
        Ok(line) => line,
        Err(_) => {
            return None;
        },
    };
    let first_char_of_line: usize = match buffer.rope.try_line_to_char(line) {
        Ok(c) => c,
        Err(_) => {
            proof {
                lemma_line_of_monotonic(buffer@, offset as int, buffer@.len() as int);
            }
            return None;
        },
    };
    proof {
        lemma_starts_line_unique(buffer@, offset as int, first_char_of_line as int);
        lemma_line_start_of(buffer@, offset as int);
    }
    let column: usize = offset - first_char_of_line;
    Some(Position::new(line, column))
}

/// The offset in `buffer` that lies at `position`, or `None` where no offset
/// of the text has that line and column.
pub fn position_to_offset(position: Position, buffer: &TextBuffer) -> (r: Option<usize>)
    ensures
        match r {
            Some(offset) => offset_at(buffer@, position) == Some(offset as int),
            None => offset_at(buffer@, position) is None,
        },
{
    let len: usize = buffer.rope.len_chars();
    let start: usize = match buffer.rope.try_line_to_char(position.line) {
        Ok(c) => c,
        Err(_) => {
            assert forall|o: int| position_at(buffer@, o) != Some(position) by {
                if position_at(buffer@, o) == Some(position) {
                    lemma_line_of_bound(buffer@, o);
                    lemma_line_of_monotonic(buffer@, o, buffer@.len() as int);
                }
            }
            return None;
        },
    };
    if position.character > len - start {
        assert forall|o: int| position_at(buffer@, o) != Some(position) by {
            if position_at(buffer@, o) == Some(position) {
                lemma_offset_from_line_start(buffer@, o, position, start as int);
            }
        }
        return None;
    }
    let offset: usize = start + position.character;
    match offset_to_position(offset, buffer) {
        Some(found) => {
            if found.line == position.line && found.character == position.character {
                proof {
                    let other = choose|o: int| position_at(buffer@, o) == Some(position);
                    lemma_position_at_injective(buffer@, offset as int, other);
                }
                Some(offset)
            } else {
                assert forall|o: int| position_at(buffer@, o) != Some(position) by {
                    if position_at(buffer@, o) == Some(position) {
                        lemma_offset_from_line_start(buffer@, o, position, start as int);
                    }
                }
                None
            }
        },
        None => None,
    }
}

/// An offset lies at the start of its line plus its column.
pub proof fn lemma_offset_from_line_start(text: Seq<char>, offset: int, position: Position, c: int)
    requires
        text.len() <= usize::MAX,
        position_at(text, offset) == Some(position),
        starts_line(text, position.line as int, c),
    ensures
        offset == c + position.character,
        position.line < line_count(text),
{
    lemma_line_of_bound(text, offset);
    lemma_line_of_monotonic(text, offset, text.len() as int);
    lemma_line_start_of(text, offset);
    lemma_starts_line_unique(text, offset, c);
}

/// Different offsets of a text lie at different positions.
pub proof fn lemma_position_at_injective(text: Seq<char>, a: int, b: int)
    requires
        text.len() <= usize::MAX,
        position_at(text, a) is Some,
        position_at(text, a) == position_at(text, b),
    ensures
        a == b,
{
    let position = position_at(text, a).unwrap();
    lemma_line_of_bound(text, a);
    lemma_line_of_monotonic(text, a, text.len() as int);
    lemma_line_start_of(text, a);
    lemma_offset_from_line_start(text, b, position, line_start_of(text, a));
}

/// Round trip: every offset of a text has a position, and the offset at that
/// position is the offset itself. This holds of every text whose length fits
/// the machine word, as the text of every buffer does.
pub proof fn lemma_offset_round_trip(text: Seq<char>, offset: int)
    requires
        text.len() <= usize::MAX,
        0 <= offset <= text.len(),
    ensures
        position_at(text, offset) is Some,
        offset_at(text, position_at(text, offset).unwrap()) == Some(offset),
{
    let position = position_at(text, offset).unwrap();
    let other = choose|o: int| position_at(text, o) == Some(position);
    lemma_position_at_injective(text, offset, other);
}

/// Round trip: the offset at a position lies at that position.
pub proof fn lemma_position_round_trip(text: Seq<char>, position: Position)
    requires
        offset_at(text, position) is Some,
    ensures
        position_at(text, offset_at(text, position).unwrap()) == Some(position),
{
}

} // verus!
