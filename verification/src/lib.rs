//! Text cursors and selections over a laid-out text, with the decisions that
//! move them in response to keyboard and accessibility events.

pub mod affinity;
pub mod byte_cursor;
pub mod layout;
pub mod selection;
pub mod input;
pub mod motion;
pub mod accesskit_position;
pub mod cursor_range;
pub mod laws;
