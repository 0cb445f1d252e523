//! Classification and dispatch of keyboard events. A key event carries a
//! key-down flag, a possible printable character, and a control-code
//! identifier; key releases are ignored, printable characters go through the
//! mode dispatch, and control codes map to cursor and buffer operations.

use vstd::prelude::*;

use crate::editor::delete_post;
use crate::editor::insert_char_post;
use crate::editor::is_text_char;
use crate::editor::move_down_post;
use crate::editor::move_left_post;
use crate::editor::move_right_post;
use crate::editor::move_up_post;
use crate::editor::next_line_post;
use crate::editor::normal_char_post;
use crate::editor::unchanged_editor;
use crate::editor::Editor;
use crate::editor::EditorMode;
use crate::editor::HorizontalMove;
use crate::editor::InsertOutcome;
use crate::editor::LineMove;
use crate::editor::NormalOutcome;
use crate::editor::VerticalMove;

verus! {

pub const ESCAPE_KEY: u16 = 0x1b;
pub const BACKSPACE_KEY: u16 = 0x08;
pub const DELETE_KEY: u16 = 0x2e;
pub const ENTER_KEY: u16 = 0x0d;
pub const SPACE_KEY: u16 = 0x20;
pub const ARROW_LEFT_KEY: u16 = 0x25;
pub const ARROW_UP_KEY: u16 = 0x26;
pub const ARROW_RIGHT_KEY: u16 = 0x27;
pub const ARROW_DOWN_KEY: u16 = 0x28;

/// One keyboard event as the input source delivers it: whether the key went
/// down, the printable character it carries, and its control-code identifier.
#[derive(Clone, Copy, Debug, PartialEq, Eq)]
pub struct KeyInput {
    pub key_down: bool,
    pub char_value: char,
    pub virtual_key_code: u16,
}

/// A control code that the dispatch maps to an operation.
pub open spec fn is_known_key_code(code: u16) -> bool {
    code == ESCAPE_KEY || code == ENTER_KEY || code == SPACE_KEY || code == BACKSPACE_KEY
        || code == DELETE_KEY || code == ARROW_RIGHT_KEY || code == ARROW_LEFT_KEY
        || code == ARROW_DOWN_KEY || code == ARROW_UP_KEY
}

/// What one keyboard event did to the editor.
#[derive(Clone, Copy, Debug, PartialEq, Eq)]
pub enum EventResult {
    /// A key release: nothing to do.
    Ignored,
    /// A printable character handled in normal mode.
    NormalKey(NormalOutcome),
    /// A printable character handled in insert mode.
    Inserted(InsertOutcome),
    /// The escape key: back to normal mode.
    SwitchedToNormal,
    MovedToNextLine(LineMove),
    MovedRight(HorizontalMove),
    MovedLeft(HorizontalMove),
    MovedDown(VerticalMove),
    MovedUp(VerticalMove),
    Deleted,
    /// A control code outside the supported set: an unhandled input class.
    UnknownKey,
}

impl Editor {
    /// Dispatch one keyboard event: ignore key releases, hand printable
    /// characters to the current mode, and map each supported control code
    /// to its cursor or buffer operation. Any other control code is an
    /// unsupported input, reported as such and changing nothing.
    pub fn handle_event(&mut self, ev: KeyInput) -> (r: EventResult)
        requires
            old(self).wf(),
            old(self).text_buffer@.len() + 1 < usize::MAX,
        ensures
            final(self).wf(),
            !ev.key_down ==> r == EventResult::Ignored && unchanged_editor(
                *old(self),
                *final(self),
            ),
            ev.key_down && is_text_char(ev.char_value) && old(self).mode == EditorMode::Normal
                ==> (r matches EventResult::NormalKey(out) && normal_char_post(
                *old(self),
                *final(self),
                ev.char_value,
                out,
            )),
            ev.key_down && is_text_char(ev.char_value) && old(self).mode == EditorMode::Insert
                ==> (r matches EventResult::Inserted(out) && insert_char_post(
                *old(self),
                *final(self),
                ev.char_value,
                out,
            )),
            ev.key_down && !is_text_char(ev.char_value) && ev.virtual_key_code == ESCAPE_KEY ==> {
                &&& r == EventResult::SwitchedToNormal
                &&& final(self).mode == EditorMode::Normal
                &&& final(self).text_buffer@ == old(self).text_buffer@
                &&& final(self).cursor_index == old(self).cursor_index
                &&& final(self).top_line == old(self).top_line
                &&& final(self).width == old(self).width
                &&& final(self).height == old(self).height
            },
            ev.key_down && !is_text_char(ev.char_value) && ev.virtual_key_code == ENTER_KEY ==> (
            r matches EventResult::MovedToNextLine(m) && next_line_post(
                *old(self),
                *final(self),
                m,
            )),
            ev.key_down && !is_text_char(ev.char_value) && (ev.virtual_key_code == SPACE_KEY
                || ev.virtual_key_code == ARROW_RIGHT_KEY) ==> (
            r matches EventResult::MovedRight(m) && move_right_post(*old(self), *final(self), m)),
            ev.key_down && !is_text_char(ev.char_value) && (ev.virtual_key_code == BACKSPACE_KEY
                || ev.virtual_key_code == ARROW_LEFT_KEY) ==> (
            r matches EventResult::MovedLeft(m) && move_left_post(*old(self), *final(self), m)),
            ev.key_down && !is_text_char(ev.char_value) && ev.virtual_key_code == DELETE_KEY ==> r
                == EventResult::Deleted && delete_post(*old(self), *final(self)),
            ev.key_down && !is_text_char(ev.char_value) && ev.virtual_key_code == ARROW_DOWN_KEY
                ==> (r matches EventResult::MovedDown(m) && move_down_post(
                *old(self),
                *final(self),
                m,
            )),
            ev.key_down && !is_text_char(ev.char_value) && ev.virtual_key_code == ARROW_UP_KEY
                ==> (r matches EventResult::MovedUp(m) && move_up_post(*old(self), *final(self), m)),
            ev.key_down && !is_text_char(ev.char_value) && !is_known_key_code(
                ev.virtual_key_code,
            ) ==> r == EventResult::UnknownKey && unchanged_editor(*old(self), *final(self)),
    {
        if !ev.key_down {
            return EventResult::Ignored;
        }
        if crate::editor::classify_text_char(ev.char_value) {
            match self.mode {
                EditorMode::Normal => EventResult::NormalKey(
                    self.handle_normal_char(ev.char_value),
                ),
                EditorMode::Insert => EventResult::Inserted(self.handle_insert_char(ev.char_value)),
            }
        } else if ev.virtual_key_code == ESCAPE_KEY {
            self.mode = EditorMode::Normal;
            EventResult::SwitchedToNormal
        } else if ev.virtual_key_code == ENTER_KEY {
            EventResult::MovedToNextLine(self.move_cursor_to_next_line())
        } else if ev.virtual_key_code == SPACE_KEY {
            EventResult::MovedRight(self.move_cursor_right())
        } else if ev.virtual_key_code == BACKSPACE_KEY {
            EventResult::MovedLeft(self.move_cursor_left())
        } else if ev.virtual_key_code == DELETE_KEY {
            self.delete_char();
            EventResult::Deleted
        } else if ev.virtual_key_code == ARROW_RIGHT_KEY {
            EventResult::MovedRight(self.move_cursor_right())
        } else if ev.virtual_key_code == ARROW_LEFT_KEY {
            EventResult::MovedLeft(self.move_cursor_left())
        } else if ev.virtual_key_code == ARROW_DOWN_KEY {
            EventResult::MovedDown(self.move_cursor_down())
        } else if ev.virtual_key_code == ARROW_UP_KEY {
            EventResult::MovedUp(self.move_cursor_up())
        } else {
            EventResult::UnknownKey
        }
    }
}

} // verus!
