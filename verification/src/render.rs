//! The frame renderer. Every call rebuilds one complete frame from the
//! current state: `height - 1` content rows starting at the viewport's top
//! line — each the line's text truncated to the viewport width, or a filler
//! marker past the last line — and one status row with the cursor and
//! viewport metrics. Nothing persists between calls; the output sink writes
//! the frame in one batch.

use vstd::prelude::*;

use crate::editor::Editor;
use crate::editor::EditorMode;
use crate::text::col_of;
use crate::text::lemma_offset_in_line;
use crate::text::line_count;
use crate::text::line_len;
use crate::text::line_of;
use crate::text::row_of;

verus! {

/// One content row of a frame: a line's visible text, or the filler marker
/// shown past the last line of the buffer.
#[derive(Debug, PartialEq, Eq)]
pub enum FrameRow {
    Text(Vec<char>),
    Filler,
}

/// The status row: mode, cursor position in both coordinate systems, the
/// current line's length, and the viewport metrics.
#[derive(Clone, Copy, Debug, PartialEq, Eq)]
pub struct StatusInfo {
    pub mode: EditorMode,
    pub cursor_index: usize,
    pub row_index: usize,
    pub col_index: usize,
    pub row_len: usize,
    pub top_line: usize,
    pub width: usize,
    pub height: usize,
}

/// One complete frame: the content rows, top to bottom, and the status row.
#[derive(Debug, PartialEq, Eq)]
pub struct Frame {
    pub rows: Vec<FrameRow>,
    pub status: StatusInfo,
}

/// A line as displayed: whole when it fits the viewport width, otherwise its
/// first `width` characters.
pub open spec fn truncated_line(text: Seq<char>, row: nat, width: int) -> Seq<char> {
    if line_len(text, row) < width {
        line_of(text, row)
    } else {
        line_of(text, row).subrange(0, width)
    }
}

impl Editor {
    /// Build the frame for the current state: one row per visible content
    /// line, truncated to the viewport width, filler markers past the last
    /// line, and the status row.
    pub fn render(&self) -> (f: Frame)
        requires
            self.wf(),
        ensures
            f.rows@.len() == self.height - 1,
            forall|i: int|
                0 <= i < f.rows@.len() ==> {
                    &&& (self.top_line + i < line_count(self.text_buffer@) ==> ((
                    #[trigger] f.rows@[i]) matches FrameRow::Text(l) && l@ == truncated_line(
                        self.text_buffer@,
                        (self.top_line + i) as nat,
                        self.width as int,
                    )))
                    &&& (self.top_line + i >= line_count(self.text_buffer@) ==> f.rows@[i]
                        is Filler)
                },
            f.status.mode == self.mode,
            f.status.cursor_index == self.cursor_index,
            f.status.row_index == row_of(self.text_buffer@, self.cursor_index as int),
            f.status.col_index == col_of(self.text_buffer@, self.cursor_index as int),
            f.status.row_len == line_len(
                self.text_buffer@,
                row_of(self.text_buffer@, self.cursor_index as int),
            ),
            f.status.top_line == self.top_line,
            f.status.width == self.width,
            f.status.height == self.height,
    {
        let num_rows: usize = self.get_num_rows();
        let mut rows: Vec<FrameRow> = Vec::new();
        let content_rows: usize = self.height - 1;
        let mut i: usize = 0;
        while i < content_rows
            invariant
                self.wf(),
                num_rows == line_count(self.text_buffer@),
                i <= content_rows,
                rows@.len() == i,
                forall|k: int|
                    0 <= k < i ==> {
                        &&& (self.top_line + k < line_count(self.text_buffer@) ==> ((
                        #[trigger] rows@[k]) matches FrameRow::Text(l) && l@ == truncated_line(
                            self.text_buffer@,
                            (self.top_line + k) as nat,
                            self.width as int,
                        )))
                        &&& (self.top_line + k >= line_count(self.text_buffer@) ==> rows@[k]
                            is Filler)
                    },
            decreases content_rows - i,
        {
            if self.top_line < num_rows && i < num_rows - self.top_line {
                let line_index: usize = self.top_line + i;
                let bounds = self.line_bounds(line_index);
                let this_len: usize = bounds.1 - bounds.0;
                let shown_end: usize = if this_len < self.width {
                    bounds.1
                } else {
                    bounds.0 + self.width
                };
                let shown = self.copy_range(bounds.0, shown_end);
                proof {
                    if this_len >= self.width {
                        assert(self.text_buffer@.subrange(bounds.0 as int, shown_end as int)
                            =~= line_of(self.text_buffer@, line_index as nat).subrange(
                            0,
                            self.width as int,
                        ));
                    }
                }
                rows.push(FrameRow::Text(shown));
            } else {
                rows.push(FrameRow::Filler);
            }
            i = i + 1;
        }
        proof {
            lemma_offset_in_line(self.text_buffer@, self.cursor_index as int);
        }
        let row_index: usize = self.get_cursor_row_index();
        let col_index: usize = self.get_cursor_col_index();
        let bounds = self.line_bounds(row_index);
        let status = StatusInfo {
            mode: self.mode,
            cursor_index: self.cursor_index,
            row_index,
            col_index,
            row_len: bounds.1 - bounds.0,
            top_line: self.top_line,
            width: self.width,
            height: self.height,
        };
        Frame { rows, status }
    }
}

} // verus!
