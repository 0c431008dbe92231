//! A line-oriented text buffer for a terminal viewer: the text as an ordered
//! sequence of lines, a cursor that is a single offset into it, a viewport
//! that scrolls to keep the cursor's line visible, and the projection of all
//! three onto terminal output.

pub mod buffer;
pub mod command;
pub mod decimal;
pub mod display;
pub mod laws;
pub mod offsets;
pub mod split;
pub mod state;
pub mod term;
pub mod text;
pub mod view;
