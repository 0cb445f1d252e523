//! The line geometry of a text buffer.
//!
//! A buffer is one logical string of characters with embedded `'\n'` markers.
//! A line is a maximal run of characters between two markers (or the buffer's
//! ends); an empty buffer has exactly one empty line, and a buffer that ends
//! in a marker has a final, addressable empty line after it. Rows and columns
//! are always derived from a linear offset through these functions; they are
//! never stored.

use vstd::prelude::*;

verus! {

/// Number of line-break markers among the first `end` characters of `text`.
pub open spec fn newlines_before(text: Seq<char>, end: int) -> nat
    decreases end,
{
    if end <= 0 {
        0
    } else if end > text.len() {
        newlines_before(text, text.len() as int)
    } else if text[end - 1] == '\n' {
        newlines_before(text, end - 1) + 1
    } else {
        newlines_before(text, end - 1)
    }
}

/// Row of the cursor offset `offset`: line breaks strictly before it.
pub open spec fn row_of(text: Seq<char>, offset: int) -> nat {
    newlines_before(text, offset)
}

/// Number of lines: one more than the number of line-break markers.
pub open spec fn line_count(text: Seq<char>) -> nat {
    newlines_before(text, text.len() as int) + 1
}

/// Index of the first line break at or after `from`, or `text.len()` if none.
pub open spec fn next_break(text: Seq<char>, from: int) -> int
    decreases text.len() - from,
{
    if from < 0 {
        next_break(text, 0)
    } else if from >= text.len() {
        text.len() as int
    } else if text[from] == '\n' {
        from
    } else {
        next_break(text, from + 1)
    }
}

/// Offset of the first character of line `row`.
pub open spec fn line_start(text: Seq<char>, row: nat) -> int
    decreases row,
{
    if row == 0 {
        0
    } else {
        next_break(text, line_start(text, (row - 1) as nat)) + 1
    }
}

/// Offset one past the last character of line `row` (its break marker, or the
/// end of the buffer).
pub open spec fn line_end(text: Seq<char>, row: nat) -> int {
    next_break(text, line_start(text, row))
}

/// Length of line `row`, not counting its break marker.
pub open spec fn line_len(text: Seq<char>, row: nat) -> nat {
    (line_end(text, row) - line_start(text, row)) as nat
}

/// The characters of line `row`.
pub open spec fn line_of(text: Seq<char>, row: nat) -> Seq<char> {
    text.subrange(line_start(text, row), line_end(text, row))
}

/// Column of the cursor offset `offset` within its row.
pub open spec fn col_of(text: Seq<char>, offset: int) -> nat {
    (offset - line_start(text, row_of(text, offset))) as nat
}

/// Combined length of the lines before line `row`, counting one break marker
/// for each.
pub open spec fn lines_prefix_len(text: Seq<char>, row: nat) -> nat
    decreases row,
{
    if row == 0 {
        0
    } else {
        lines_prefix_len(text, (row - 1) as nat) + line_len(text, (row - 1) as nat) + 1
    }
}

pub proof fn lemma_newlines_before_mono(text: Seq<char>, a: int, b: int)
    requires
        a <= b,
    ensures
        newlines_before(text, a) <= newlines_before(text, b),
    decreases b - a,
{
    if a < b {
        lemma_newlines_before_mono(text, a, b - 1);
    }
}

pub proof fn lemma_newlines_before_le(text: Seq<char>, end: int)
    requires
        0 <= end <= text.len(),
    ensures
        newlines_before(text, end) <= end,
    decreases end,
{
    if end > 0 {
        lemma_newlines_before_le(text, end - 1);
    }
}

/// A stretch of text without line breaks leaves the count unchanged.
pub proof fn lemma_newlines_before_range(text: Seq<char>, a: int, b: int)
    requires
        0 <= a <= b <= text.len(),
        forall|i: int| a <= i < b ==> text[i] != '\n',
    ensures
        newlines_before(text, b) == newlines_before(text, a),
    decreases b - a,
{
    if a < b {
        lemma_newlines_before_range(text, a, b - 1);
    }
}

pub proof fn lemma_next_break_props(text: Seq<char>, from: int)
    requires
        0 <= from <= text.len(),
    ensures
        from <= next_break(text, from) <= text.len(),
        next_break(text, from) < text.len() ==> text[next_break(text, from)] == '\n',
        forall|i: int| from <= i < next_break(text, from) ==> text[i] != '\n',
    decreases text.len() - from,
{
    if from < text.len() && text[from] != '\n' {
        lemma_next_break_props(text, from + 1);
    }
}

/// The first line break at or after `from` is exactly the first position `i`
/// with a break (or the buffer's end when there is none).
pub proof fn lemma_next_break_at(text: Seq<char>, from: int, i: int)
    requires
        0 <= from <= i <= text.len(),
        forall|j: int| from <= j < i ==> text[j] != '\n',
        i == text.len() || text[i] == '\n',
    ensures
        next_break(text, from) == i,
    decreases i - from,
{
    if from < i {
        lemma_next_break_at(text, from + 1, i);
    }
}

/// The boundaries of a valid line: where it starts and ends, that it holds no
/// break marker, and how its end relates to the lines that follow.
pub proof fn lemma_line_props(text: Seq<char>, row: nat)
    requires
        row < line_count(text),
    ensures
        0 <= line_start(text, row) <= line_end(text, row) <= text.len(),
        newlines_before(text, line_start(text, row)) == row,
        newlines_before(text, line_end(text, row)) == row,
        row > 0 ==> text[line_start(text, row) - 1] == '\n',
        forall|i: int| line_start(text, row) <= i < line_end(text, row) ==> text[i] != '\n',
        line_end(text, row) < text.len() <==> row + 1 < line_count(text),
        line_end(text, row) < text.len() ==> text[line_end(text, row)] == '\n',
    decreases row,
{
    let len = text.len() as int;
    if row == 0 {
        lemma_next_break_props(text, 0);
        lemma_newlines_before_range(text, 0, line_end(text, 0));
    } else {
        lemma_line_props(text, (row - 1) as nat);
        let prev_end = line_end(text, (row - 1) as nat);
        // `row < line_count` puts another line after row - 1, so its break
        // marker is a real character and this line starts just past it.
        assert(prev_end < len);
        assert(newlines_before(text, prev_end + 1) == row);
        lemma_next_break_props(text, prev_end + 1);
        lemma_newlines_before_range(text, line_start(text, row), line_end(text, row));
    }
    let end = line_end(text, row);
    if end < len {
        assert(newlines_before(text, end + 1) == row + 1);
        lemma_newlines_before_mono(text, end + 1, len);
    }
}

/// Every valid offset lies within the line that its row names.
pub proof fn lemma_offset_in_line(text: Seq<char>, offset: int)
    requires
        0 <= offset <= text.len(),
    ensures
        row_of(text, offset) < line_count(text),
        0 <= line_start(text, row_of(text, offset)),
        line_end(text, row_of(text, offset)) <= text.len(),
        line_start(text, row_of(text, offset)) <= offset <= line_end(text, row_of(text, offset)),
        col_of(text, offset) == offset - line_start(text, row_of(text, offset)),
        col_of(text, offset) <= line_len(text, row_of(text, offset)),
{
    let len = text.len() as int;
    let row = row_of(text, offset);
    lemma_newlines_before_mono(text, offset, len);
    lemma_line_props(text, row);
    let start = line_start(text, row);
    let end = line_end(text, row);
    if offset < start {
        // The character just before the line's start is a break marker, so
        // every offset before the start has a smaller row.
        assert(newlines_before(text, start) == newlines_before(text, start - 1) + 1);
        lemma_newlines_before_mono(text, offset, start - 1);
        assert(false);
    }
    if offset > end {
        assert(newlines_before(text, end + 1) == row + 1);
        lemma_newlines_before_mono(text, end + 1, offset);
        assert(false);
    }
}

/// The lines before a row, each with its break marker, fill the buffer
/// exactly up to that row's start.
pub proof fn lemma_lines_prefix_len(text: Seq<char>, row: nat)
    requires
        row < line_count(text),
    ensures
        lines_prefix_len(text, row) == line_start(text, row),
    decreases row,
{
    if row > 0 {
        lemma_line_props(text, (row - 1) as nat);
        lemma_lines_prefix_len(text, (row - 1) as nat);
    }
}

/// Offset/row-column consistency: for every valid offset, the derived column
/// plus the combined length of all earlier lines (each counted with its break
/// marker) gives the offset back.
pub proof fn lemma_offset_row_col_consistent(text: Seq<char>, offset: int)
    requires
        0 <= offset <= text.len(),
    ensures
        col_of(text, offset) + lines_prefix_len(text, row_of(text, offset)) == offset,
{
    lemma_offset_in_line(text, offset);
    lemma_lines_prefix_len(text, row_of(text, offset));
}

/// Inserting a character at an offset and then removing the character at that
/// same offset restores the original buffer content.
pub proof fn lemma_insert_remove_round_trip(text: Seq<char>, offset: int, c: char)
    requires
        0 <= offset <= text.len(),
    ensures
        text.insert(offset, c).remove(offset) == text,
{
    assert(text.insert(offset, c).remove(offset) =~= text);
}

} // verus!
