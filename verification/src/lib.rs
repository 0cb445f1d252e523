//! Core of a small terminal text editor: a character buffer addressed by a
//! single linear cursor offset, the derived line/row/column geometry, the
//! viewport scroll policy, and a renderer that produces one frame of screen
//! content per call. Terminal input and output live outside this crate.

pub mod editor;
pub mod input;
pub mod render;
pub mod text;
