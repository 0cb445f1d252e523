//! The editor state: one text buffer, one cursor offset, the two input modes,
//! and the viewport scroll position. Every movement and edit operation keeps
//! the offset inside the buffer and reports how the terminal cursor should
//! follow; the contracts pin the new offset, row and column exactly.

use vstd::prelude::*;

use crate::text::col_of;
use crate::text::lemma_line_props;
use crate::text::lemma_newlines_before_le;
use crate::text::lemma_newlines_before_range;
use crate::text::lemma_next_break_at;
use crate::text::lemma_offset_in_line;
use crate::text::line_count;
use crate::text::line_end;
use crate::text::line_len;
use crate::text::line_of;
use crate::text::line_start;
use crate::text::next_break;
use crate::text::row_of;

verus! {

#[derive(Clone, Copy, Debug, PartialEq, Eq)]
pub enum EditorMode {
    Normal,
    Insert,
}

/// How a horizontal move ended: refused at a buffer boundary, within the
/// current line, or across a line boundary.
#[derive(Clone, Copy, Debug, PartialEq, Eq)]
pub enum HorizontalMove {
    Blocked,
    SameLine,
    WrappedLine,
}

/// How a vertical move ended. `clamped` reports that the target line was too
/// short for the current column, `scrolled` that the viewport moved instead
/// of the terminal cursor.
#[derive(Clone, Copy, Debug, PartialEq, Eq)]
pub enum VerticalMove {
    Blocked,
    Moved { clamped: bool, scrolled: bool },
}

/// How a jump to the start of the next line ended.
#[derive(Clone, Copy, Debug, PartialEq, Eq)]
pub enum LineMove {
    Blocked,
    Moved,
}

/// What a printable character did in normal mode.
#[derive(Clone, Copy, Debug, PartialEq, Eq)]
pub enum NormalOutcome {
    EnteredInsert,
    Unsupported,
}

/// What a character insertion did in insert mode.
#[derive(Clone, Copy, Debug, PartialEq, Eq)]
pub enum InsertOutcome {
    Inserted,
    UnsupportedChar,
    LineFull,
}

/// An ASCII decimal digit, upper-case letter, or lower-case letter.
pub open spec fn is_ascii_alphanumeric_char(c: char) -> bool {
    (0x30 <= c as u32 && c as u32 <= 0x39)
    || (0x41 <= c as u32 && c as u32 <= 0x5a)
    || (0x61 <= c as u32 && c as u32 <= 0x7a)
}

/// An ASCII punctuation character: the four printable blocks around the
/// digits and letters.
pub open spec fn is_ascii_punctuation_char(c: char) -> bool {
    (0x21 <= c as u32 && c as u32 <= 0x2f)
    || (0x3a <= c as u32 && c as u32 <= 0x40)
    || (0x5b <= c as u32 && c as u32 <= 0x60)
    || (0x7b <= c as u32 && c as u32 <= 0x7e)
}

/// A character that insert mode writes into the buffer.
pub open spec fn is_text_char(c: char) -> bool {
    is_ascii_alphanumeric_char(c) || is_ascii_punctuation_char(c)
}

/// Runtime check for `is_text_char`.
pub fn classify_text_char(c: char) -> (b: bool)
    ensures
        b == is_text_char(c),
{
    let u: u32 = c as u32;
    (0x30 <= u && u <= 0x39) || (0x41 <= u && u <= 0x5a) || (0x61 <= u && u <= 0x7a)
    || (0x21 <= u && u <= 0x2f) || (0x3a <= u && u <= 0x40) || (0x5b <= u && u <= 0x60)
    || (0x7b <= u && u <= 0x7e)
}

pub struct Editor {
    pub text_buffer: Vec<char>,
    pub cursor_index: usize,
    pub mode: EditorMode,
    pub top_line: usize,
    pub width: usize,
    pub height: usize,
}

/// The fields that movement and edit operations never touch.
pub open spec fn keeps_mode_and_dims(pre: Editor, post: Editor) -> bool {
    &&& post.mode == pre.mode
    &&& post.width == pre.width
    &&& post.height == pre.height
}

/// The operation left the whole state as it found it.
pub open spec fn unchanged_editor(pre: Editor, post: Editor) -> bool {
    &&& post.text_buffer@ == pre.text_buffer@
    &&& post.cursor_index == pre.cursor_index
    &&& post.top_line == pre.top_line
    &&& keeps_mode_and_dims(pre, post)
}

/// The downward scroll trigger: the cursor's row sits on the last visible
/// content row or below it.
pub open spec fn scrolls_down(pre: Editor) -> bool {
    row_of(pre.text_buffer@, pre.cursor_index as int) - pre.top_line >= pre.height - 2
}

/// The upward scroll trigger: the viewport is not at the top and the cursor's
/// row sits on the first visible row or above it.
pub open spec fn scrolls_up(pre: Editor) -> bool {
    pre.top_line != 0 && row_of(pre.text_buffer@, pre.cursor_index as int) - pre.top_line <= 0
}

/// Contract of `move_cursor_right`: refused exactly at the end of the buffer,
/// otherwise the offset grows by one; within a line the column grows by one,
/// at a line's end the cursor wraps to the start of the next row.
pub open spec fn move_right_post(pre: Editor, post: Editor, r: HorizontalMove) -> bool {
    let t = pre.text_buffer@;
    let o = pre.cursor_index as int;
    &&& post.text_buffer@ == t
    &&& post.top_line == pre.top_line
    &&& keeps_mode_and_dims(pre, post)
    &&& (r is Blocked <==> o == t.len())
    &&& (r is Blocked ==> post.cursor_index == pre.cursor_index)
    &&& (!(r is Blocked) ==> post.cursor_index == o + 1)
    &&& (r is SameLine <==> o < t.len() && col_of(t, o) < line_len(t, row_of(t, o)))
    &&& (r is WrappedLine <==> o < t.len() && col_of(t, o) == line_len(t, row_of(t, o)))
    &&& (r is SameLine ==> row_of(t, o + 1) == row_of(t, o) && col_of(t, o + 1) == col_of(t, o) + 1)
    &&& (r is WrappedLine ==> row_of(t, o + 1) == row_of(t, o) + 1 && col_of(t, o + 1) == 0)
}

/// Contract of `move_cursor_left`: refused exactly at the start of the buffer,
/// otherwise the offset shrinks by one; from column zero the cursor lands at
/// the end of the previous line.
pub open spec fn move_left_post(pre: Editor, post: Editor, r: HorizontalMove) -> bool {
    let t = pre.text_buffer@;
    let o = pre.cursor_index as int;
    &&& post.text_buffer@ == t
    &&& post.top_line == pre.top_line
    &&& keeps_mode_and_dims(pre, post)
    &&& (r is Blocked <==> o == 0)
    &&& (r is Blocked ==> post.cursor_index == pre.cursor_index)
    &&& (!(r is Blocked) ==> post.cursor_index == o - 1)
    &&& (r is SameLine <==> o > 0 && col_of(t, o) > 0)
    &&& (r is WrappedLine <==> o > 0 && col_of(t, o) == 0)
    &&& (r is SameLine ==> row_of(t, o - 1) == row_of(t, o) && col_of(t, o - 1) + 1 == col_of(t, o))
    &&& (r is WrappedLine ==> row_of(t, o - 1) + 1 == row_of(t, o)
        && col_of(t, o - 1) == line_len(t, (row_of(t, o) - 1) as nat))
}

/// Contract of `move_cursor_down`: refused on the last line; otherwise the
/// cursor lands on the next line, at the same column or clamped to that
/// line's end when it is shorter, and the viewport scrolls by one line
/// instead of the cursor whenever the trigger held, keeping the rendered row
/// in place.
pub open spec fn move_down_post(pre: Editor, post: Editor, r: VerticalMove) -> bool {
    let t = pre.text_buffer@;
    let o = pre.cursor_index as int;
    let row = row_of(t, o);
    let col = col_of(t, o);
    &&& post.text_buffer@ == t
    &&& keeps_mode_and_dims(pre, post)
    &&& (r is Blocked <==> row + 1 == line_count(t))
    &&& (r is Blocked ==> post.cursor_index == pre.cursor_index && post.top_line == pre.top_line)
    &&& (r matches VerticalMove::Moved { clamped, scrolled } ==> {
        &&& scrolled == scrolls_down(pre)
        &&& post.top_line == pre.top_line + (if scrolled { 1int } else { 0int })
        &&& clamped == (line_len(t, (row + 1) as nat) < col + 1)
        &&& post.cursor_index == (if clamped {
            line_end(t, (row + 1) as nat)
        } else {
            line_start(t, (row + 1) as nat) + col
        })
        &&& row_of(t, post.cursor_index as int) == row + 1
        &&& col_of(t, post.cursor_index as int) == (if clamped {
            line_len(t, (row + 1) as nat) as int
        } else {
            col as int
        })
        &&& (scrolled ==> row_of(t, post.cursor_index as int) - post.top_line == row - pre.top_line)
    })
}

/// Contract of `move_cursor_up`: the mirror image of `move_cursor_down`,
/// refused on the first line.
pub open spec fn move_up_post(pre: Editor, post: Editor, r: VerticalMove) -> bool {
    let t = pre.text_buffer@;
    let o = pre.cursor_index as int;
    let row = row_of(t, o);
    let col = col_of(t, o);
    &&& post.text_buffer@ == t
    &&& keeps_mode_and_dims(pre, post)
    &&& (r is Blocked <==> row == 0)
    &&& (r is Blocked ==> post.cursor_index == pre.cursor_index && post.top_line == pre.top_line)
    &&& (r matches VerticalMove::Moved { clamped, scrolled } ==> {
        &&& scrolled == scrolls_up(pre)
        &&& post.top_line == pre.top_line - (if scrolled { 1int } else { 0int })
        &&& clamped == (line_len(t, (row - 1) as nat) < col + 1)
        &&& post.cursor_index == (if clamped {
            line_end(t, (row - 1) as nat)
        } else {
            line_start(t, (row - 1) as nat) + col
        })
        &&& row_of(t, post.cursor_index as int) == row - 1
        &&& col_of(t, post.cursor_index as int) == (if clamped {
            line_len(t, (row - 1) as nat) as int
        } else {
            col as int
        })
        &&& (scrolled ==> row_of(t, post.cursor_index as int) - post.top_line == row - pre.top_line)
    })
}

/// Contract of `move_cursor_to_next_line`: refused on the last line,
/// otherwise the cursor lands at the start of the next line.
pub open spec fn next_line_post(pre: Editor, post: Editor, r: LineMove) -> bool {
    let t = pre.text_buffer@;
    let o = pre.cursor_index as int;
    let row = row_of(t, o);
    &&& post.text_buffer@ == t
    &&& post.top_line == pre.top_line
    &&& keeps_mode_and_dims(pre, post)
    &&& (r is Blocked <==> row + 1 == line_count(t))
    &&& (r is Blocked ==> post.cursor_index == pre.cursor_index)
    &&& (r is Moved ==> {
        &&& post.cursor_index == line_start(t, (row + 1) as nat)
        &&& row_of(t, post.cursor_index as int) == row + 1
        &&& col_of(t, post.cursor_index as int) == 0
    })
}

/// Contract of `delete_char`: a no-op on an empty buffer and at or past the
/// last character; otherwise the character at the cursor leaves the buffer
/// and the cursor stays.
pub open spec fn delete_post(pre: Editor, post: Editor) -> bool {
    let t = pre.text_buffer@;
    let o = pre.cursor_index as int;
    &&& post.cursor_index == pre.cursor_index
    &&& post.top_line == pre.top_line
    &&& keeps_mode_and_dims(pre, post)
    &&& (o + 1 >= t.len() ==> post.text_buffer@ == t)
    &&& (o + 1 < t.len() ==> post.text_buffer@ == t.remove(o))
}

/// Contract of `handle_normal_char`: `'i'` enters insert mode, every other
/// printable character is an unsupported normal-mode command.
pub open spec fn normal_char_post(pre: Editor, post: Editor, c: char, r: NormalOutcome) -> bool {
    &&& post.text_buffer@ == pre.text_buffer@
    &&& post.cursor_index == pre.cursor_index
    &&& post.top_line == pre.top_line
    &&& post.width == pre.width
    &&& post.height == pre.height
    &&& (c == 'i' ==> post.mode == EditorMode::Insert && r == NormalOutcome::EnteredInsert)
    &&& (c != 'i' ==> post.mode == pre.mode && r == NormalOutcome::Unsupported)
}

/// Contract of `handle_insert_char`: a character outside the printable ASCII
/// classes is rejected, an insertion on a line already as wide as the
/// viewport is deliberately unsupported, and otherwise the character enters
/// the buffer at the cursor and the cursor moves one place right.
pub open spec fn insert_char_post(pre: Editor, post: Editor, c: char, r: InsertOutcome) -> bool {
    let t = pre.text_buffer@;
    let o = pre.cursor_index as int;
    &&& post.top_line == pre.top_line
    &&& keeps_mode_and_dims(pre, post)
    &&& (!is_text_char(c) ==> post.text_buffer@ == t && post.cursor_index == pre.cursor_index
        && r == InsertOutcome::UnsupportedChar)
    &&& (is_text_char(c) && line_len(t, row_of(t, o)) >= pre.width ==> post.text_buffer@ == t
        && post.cursor_index == pre.cursor_index && r == InsertOutcome::LineFull)
    &&& (is_text_char(c) && line_len(t, row_of(t, o)) < pre.width ==> post.text_buffer@ == t.insert(
        o,
        c,
    ) && post.cursor_index == o + 1 && r == InsertOutcome::Inserted)
}

impl Editor {
    /// Well-formedness: the cursor stays inside the buffer, the buffer leaves
    /// room for the line count to be represented, and the viewport has at
    /// least one content row besides the status row.
    pub open spec fn wf(&self) -> bool {
        &&& self.cursor_index <= self.text_buffer@.len()
        &&& self.text_buffer@.len() < usize::MAX
        &&& 2 <= self.height
    }

    pub fn new(text: Vec<char>, width: usize, height: usize) -> (ed: Editor)
        requires
            text@.len() < usize::MAX,
            2 <= height,
        ensures
            ed.wf(),
            ed.text_buffer@ == text@,
            ed.cursor_index == 0,
            ed.mode == EditorMode::Normal,
            ed.top_line == 0,
            ed.width == width,
            ed.height == height,
    {
        Editor {
            text_buffer: text,
            cursor_index: 0,
            mode: EditorMode::Normal,
            top_line: 0,
            width,
            height,
        }
    }

    /// Number of lines in the buffer: one more than its line-break markers,
    /// so an empty buffer has one line and a trailing break adds a final
    /// empty line.
    pub fn get_num_rows(&self) -> (n: usize)
        requires
            self.wf(),
        ensures
            n == line_count(self.text_buffer@),
    {
        let text_len: usize = self.text_buffer.len();
        let mut count: usize = 0;
        let mut i: usize = 0;
        while i < text_len
            invariant
                text_len == self.text_buffer@.len(),
                text_len < usize::MAX,
                i <= text_len,
                count == crate::text::newlines_before(self.text_buffer@, i as int),
                count <= i,
            decreases text_len - i,
        {
            if self.text_buffer[i] == '\n' {
                count = count + 1;
            }
            i = i + 1;
        }
        count + 1
    }

    /// Row of the cursor: line-break markers strictly before its offset.
    pub fn get_cursor_row_index(&self) -> (row: usize)
        requires
            self.wf(),
        ensures
            row == row_of(self.text_buffer@, self.cursor_index as int),
    {
        let mut row: usize = 0;
        let mut i: usize = 0;
        while i < self.cursor_index
            invariant
                self.wf(),
                i <= self.cursor_index,
                row == crate::text::newlines_before(self.text_buffer@, i as int),
                row <= i,
            decreases self.cursor_index - i,
        {
            if self.text_buffer[i] == '\n' {
                row = row + 1;
            }
            i = i + 1;
        }
        row
    }

    /// Column of the cursor: its distance from the start of its line.
    pub fn get_cursor_col_index(&self) -> (col: usize)
        requires
            self.wf(),
        ensures
            col == col_of(self.text_buffer@, self.cursor_index as int),
    {
        let mut start: usize = 0;
        let mut i: usize = 0;
        while i < self.cursor_index
            invariant
                self.wf(),
                i <= self.cursor_index,
                start <= i,
                start == line_start(
                    self.text_buffer@,
                    crate::text::newlines_before(self.text_buffer@, i as int),
                ),
                forall|j: int| start <= j < i ==> self.text_buffer@[j] != '\n',
            decreases self.cursor_index - i,
        {
            if self.text_buffer[i] == '\n' {
                proof {
                    lemma_next_break_at(self.text_buffer@, start as int, i as int);
                }
                start = i + 1;
            }
            i = i + 1;
        }
        self.cursor_index - start
    }

    /// First line-break marker at or after `from`, or the buffer's end.
    fn next_break_from(&self, from: usize) -> (brk: usize)
        requires
            self.wf(),
            from <= self.text_buffer@.len(),
        ensures
            brk == next_break(self.text_buffer@, from as int),
            from <= brk <= self.text_buffer@.len(),
    {
        let text_len: usize = self.text_buffer.len();
        let mut i: usize = from;
        while i < text_len && self.text_buffer[i] != '\n'
            invariant
                self.wf(),
                text_len == self.text_buffer@.len(),
                from <= i <= text_len,
                forall|j: int| from <= j < i ==> self.text_buffer@[j] != '\n',
            decreases text_len - i,
        {
            i = i + 1;
        }
        proof {
            lemma_next_break_at(self.text_buffer@, from as int, i as int);
        }
        i
    }

    /// The start and end offsets of line `row`.
    pub fn line_bounds(&self, row: usize) -> (bounds: (usize, usize))
        requires
            self.wf(),
            row < line_count(self.text_buffer@),
        ensures
            bounds.0 == line_start(self.text_buffer@, row as nat),
            bounds.1 == line_end(self.text_buffer@, row as nat),
            bounds.0 <= bounds.1 <= self.text_buffer@.len(),
    {
        let mut start: usize = 0;
        let mut r: usize = 0;
        while r < row
            invariant
                self.wf(),
                row < line_count(self.text_buffer@),
                r <= row,
                start == line_start(self.text_buffer@, r as nat),
                start <= self.text_buffer@.len(),
            decreases row - r,
        {
            proof {
                lemma_line_props(self.text_buffer@, r as nat);
            }
            let brk: usize = self.next_break_from(start);
            start = brk + 1;
            r = r + 1;
        }
        proof {
            lemma_line_props(self.text_buffer@, row as nat);
        }
        let end: usize = self.next_break_from(start);
        (start, end)
    }

    /// A copy of the characters in `[from, to)`.
    pub(crate) fn copy_range(&self, from: usize, to: usize) -> (out: Vec<char>)
        requires
            self.wf(),
            from <= to <= self.text_buffer@.len(),
        ensures
            out@ == self.text_buffer@.subrange(from as int, to as int),
    {
        let mut out: Vec<char> = Vec::new();
        proof {
            assert(out@ =~= self.text_buffer@.subrange(from as int, from as int));
        }
        let mut i: usize = from;
        while i < to
            invariant
                self.wf(),
                from <= i <= to <= self.text_buffer@.len(),
                out@ == self.text_buffer@.subrange(from as int, i as int),
            decreases to - i,
        {
            out.push(self.text_buffer[i]);
            proof {
                assert(out@ =~= self.text_buffer@.subrange(from as int, i + 1));
            }
            i = i + 1;
        }
        out
    }

    /// The content of line `row`, or nothing when no such line exists.
    pub fn get_content_of_row(&self, row: usize) -> (content: Option<Vec<char>>)
        requires
            self.wf(),
        ensures
            row < line_count(self.text_buffer@) ==> (content matches Some(line) && line@
                == line_of(self.text_buffer@, row as nat)),
            row >= line_count(self.text_buffer@) ==> content is None,
    {
        let n: usize = self.get_num_rows();
        if row >= n {
            return None;
        }
        let bounds = self.line_bounds(row);
        Some(self.copy_range(bounds.0, bounds.1))
    }

    /// All lines of the buffer, in order.
    pub fn get_lines(&self) -> (lines: Vec<Vec<char>>)
        requires
            self.wf(),
        ensures
            lines@.len() == line_count(self.text_buffer@),
            forall|r: int|
                0 <= r < lines@.len() ==> (#[trigger] lines@[r])@ == line_of(
                    self.text_buffer@,
                    r as nat,
                ),
    {
        let n: usize = self.get_num_rows();
        let mut lines: Vec<Vec<char>> = Vec::new();
        let mut r: usize = 0;
        while r < n
            invariant
                self.wf(),
                n == line_count(self.text_buffer@),
                r <= n,
                lines@.len() == r,
                forall|k: int|
                    0 <= k < r ==> (#[trigger] lines@[k])@ == line_of(self.text_buffer@, k as nat),
            decreases n - r,
        {
            let bounds = self.line_bounds(r);
            lines.push(self.copy_range(bounds.0, bounds.1));
            r = r + 1;
        }
        lines
    }

    /// Move the cursor one character right, wrapping to the next row at a
    /// line's end; refused at the end of the buffer.
    pub fn move_cursor_right(&mut self) -> (r: HorizontalMove)
        requires
            old(self).wf(),
        ensures
            final(self).wf(),
            move_right_post(*old(self), *final(self), r),
    {
        if self.cursor_index == self.text_buffer.len() {
            return HorizontalMove::Blocked;
        }
        proof {
            lemma_offset_in_line(self.text_buffer@, self.cursor_index as int);
        }
        let row: usize = self.get_cursor_row_index();
        let bounds = self.line_bounds(row);
        let row_len: usize = bounds.1 - bounds.0;
        let col: usize = self.get_cursor_col_index();
        proof {
            let t = self.text_buffer@;
            let o = self.cursor_index as int;
            lemma_line_props(t, row as nat);
            if col < row_len {
                // Still inside the line: no marker between its start and o + 1.
                lemma_newlines_before_range(t, bounds.0 as int, o + 1);
            } else {
                // At the line's end the next character is its break marker.
                assert(o == bounds.1);
            }
        }
        self.cursor_index = self.cursor_index + 1;
        if col < row_len {
            HorizontalMove::SameLine
        } else {
            HorizontalMove::WrappedLine
        }
    }

    /// Move the cursor one character left, landing at the end of the previous
    /// line from column zero; refused at the start of the buffer.
    pub fn move_cursor_left(&mut self) -> (r: HorizontalMove)
        requires
            old(self).wf(),
        ensures
            final(self).wf(),
            move_left_post(*old(self), *final(self), r),
    {
        if self.cursor_index == 0 {
            return HorizontalMove::Blocked;
        }
        let col: usize = self.get_cursor_col_index();
        proof {
            let t = self.text_buffer@;
            let o = self.cursor_index as int;
            lemma_offset_in_line(t, o);
            let row = row_of(t, o);
            lemma_line_props(t, row);
            if col > 0 {
                // o - 1 still sits inside the same line.
                lemma_newlines_before_range(t, line_start(t, row), o - 1);
            } else {
                // o is the line's start, so o - 1 is the previous line's end.
                lemma_line_props(t, (row - 1) as nat);
            }
        }
        self.cursor_index = self.cursor_index - 1;
        if col > 0 {
            HorizontalMove::SameLine
        } else {
            HorizontalMove::WrappedLine
        }
    }

    /// Move the cursor to the line below, clamping to that line's end when it
    /// is shorter than the current column; scrolls the viewport down by one
    /// line instead of moving the rendered cursor when the cursor sits on the
    /// last visible content row. Refused on the last line.
    pub fn move_cursor_down(&mut self) -> (r: VerticalMove)
        requires
            old(self).wf(),
        ensures
            final(self).wf(),
            move_down_post(*old(self), *final(self), r),
    {
        proof {
            lemma_offset_in_line(self.text_buffer@, self.cursor_index as int);
            lemma_newlines_before_le(self.text_buffer@, self.cursor_index as int);
        }
        let row: usize = self.get_cursor_row_index();
        let num_rows: usize = self.get_num_rows();
        if num_rows == row + 1 {
            return VerticalMove::Blocked;
        }
        let mut scrolled = false;
        if row >= self.top_line && row - self.top_line >= self.height - 2 {
            self.top_line = self.top_line + 1;
            scrolled = true;
        }
        let col: usize = self.get_cursor_col_index();
        let bounds = self.line_bounds(row + 1);
        let next_len: usize = bounds.1 - bounds.0;
        proof {
            lemma_line_props(self.text_buffer@, (row + 1) as nat);
        }
        if next_len < col + 1 {
            self.cursor_index = bounds.1;
            VerticalMove::Moved { clamped: true, scrolled }
        } else {
            proof {
                lemma_newlines_before_range(
                    self.text_buffer@,
                    bounds.0 as int,
                    bounds.0 as int + col as int,
                );
            }
            self.cursor_index = bounds.0 + col;
            VerticalMove::Moved { clamped: false, scrolled }
        }
    }

    /// Move the cursor to the line above, clamping to that line's end when it
    /// is shorter than the current column; scrolls the viewport up by one
    /// line instead of moving the rendered cursor when the cursor sits on the
    /// first visible row and the viewport is not at the top. Refused on the
    /// first line.
    pub fn move_cursor_up(&mut self) -> (r: VerticalMove)
        requires
            old(self).wf(),
        ensures
            final(self).wf(),
            move_up_post(*old(self), *final(self), r),
    {
        proof {
            lemma_offset_in_line(self.text_buffer@, self.cursor_index as int);
        }
        let row: usize = self.get_cursor_row_index();
        if row == 0 {
            return VerticalMove::Blocked;
        }
        let mut scrolled = false;
        if self.top_line != 0 && row <= self.top_line {
            self.top_line = self.top_line - 1;
            scrolled = true;
        }
        let col: usize = self.get_cursor_col_index();
        let bounds = self.line_bounds(row - 1);
        let prev_len: usize = bounds.1 - bounds.0;
        proof {
            lemma_line_props(self.text_buffer@, (row - 1) as nat);
        }
        if prev_len < col + 1 {
            self.cursor_index = bounds.1;
            VerticalMove::Moved { clamped: true, scrolled }
        } else {
            proof {
                lemma_newlines_before_range(
                    self.text_buffer@,
                    bounds.0 as int,
                    bounds.0 as int + col as int,
                );
            }
            self.cursor_index = bounds.0 + col;
            VerticalMove::Moved { clamped: false, scrolled }
        }
    }

    /// Move the cursor to the start of the next line, without preserving a
    /// target column; refused on the last line.
    pub fn move_cursor_to_next_line(&mut self) -> (r: LineMove)
        requires
            old(self).wf(),
        ensures
            final(self).wf(),
            next_line_post(*old(self), *final(self), r),
    {
        proof {
            lemma_offset_in_line(self.text_buffer@, self.cursor_index as int);
            lemma_newlines_before_le(self.text_buffer@, self.cursor_index as int);
        }
        let row: usize = self.get_cursor_row_index();
        let num_rows: usize = self.get_num_rows();
        if num_rows == row + 1 {
            return LineMove::Blocked;
        }
        let bounds = self.line_bounds(row);
        proof {
            lemma_line_props(self.text_buffer@, row as nat);
            lemma_line_props(self.text_buffer@, (row + 1) as nat);
        }
        self.cursor_index = bounds.1 + 1;
        LineMove::Moved
    }

    /// `'i'` enters insert mode; every other printable character is an
    /// unsupported normal-mode command, reported as such.
    pub fn handle_normal_char(&mut self, char_value: char) -> (r: NormalOutcome)
        requires
            old(self).wf(),
        ensures
            final(self).wf(),
            normal_char_post(*old(self), *final(self), char_value, r),
    {
        if char_value == 'i' {
            self.mode = EditorMode::Insert;
            NormalOutcome::EnteredInsert
        } else {
            NormalOutcome::Unsupported
        }
    }

    /// Insert a printable character at the cursor and move one place right.
    /// A character outside the alphanumeric and punctuation classes is
    /// rejected, and inserting on a line already as wide as the viewport is
    /// deliberately unsupported.
    pub fn handle_insert_char(&mut self, char_value: char) -> (r: InsertOutcome)
        requires
            old(self).wf(),
            old(self).text_buffer@.len() + 1 < usize::MAX,
        ensures
            final(self).wf(),
            insert_char_post(*old(self), *final(self), char_value, r),
    {
        if !classify_text_char(char_value) {
            return InsertOutcome::UnsupportedChar;
        }
        proof {
            lemma_offset_in_line(self.text_buffer@, self.cursor_index as int);
        }
        let row: usize = self.get_cursor_row_index();
        let bounds = self.line_bounds(row);
        if bounds.1 - bounds.0 >= self.width {
            return InsertOutcome::LineFull;
        }
        self.text_buffer.insert(self.cursor_index, char_value);
        let _ = self.move_cursor_right();
        InsertOutcome::Inserted
    }

    /// Remove the character at the cursor, without moving the cursor. A
    /// no-op on an empty buffer and at or past the last character: deleting
    /// the final character is deliberately disallowed boundary policy.
    pub fn delete_char(&mut self)
        requires
            old(self).wf(),
        ensures
            final(self).wf(),
            delete_post(*old(self), *final(self)),
    {
        if self.text_buffer.len() == 0 {
            return;
        }
        if self.cursor_index >= self.text_buffer.len() - 1 {
            return;
        }
        self.text_buffer.remove(self.cursor_index);
    }

    /// Record a new terminal size, reporting whether it changed.
    pub fn set_size(&mut self, width: usize, height: usize) -> (changed: bool)
        requires
            old(self).wf(),
            2 <= height,
        ensures
            final(self).wf(),
            changed == !(width == old(self).width && height == old(self).height),
            final(self).width == width,
            final(self).height == height,
            final(self).text_buffer@ == old(self).text_buffer@,
            final(self).cursor_index == old(self).cursor_index,
            final(self).top_line == old(self).top_line,
            final(self).mode == old(self).mode,
    {
        if width == self.width && height == self.height {
            return false;
        }
        self.width = width;
        self.height = height;
        true
    }
}

} // verus!
