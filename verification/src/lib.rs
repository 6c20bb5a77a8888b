//! Pacing engine of a terminal speed reader that shows a text one word at a
//! time: word splitting, the focus-character heuristic, the playback state
//! machine, key dispatch and the per-iteration decisions of the display loop.

pub mod input;
pub mod orp;
pub mod playback;
pub mod session;
pub mod words;
