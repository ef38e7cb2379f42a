//! Bounce-scrolling of one line of text on a small pixel matrix.
//!
//! The library holds the decisions: how the scroll offset moves from tick to
//! tick, when a frame is painted, and in what order a display request stops
//! the previous animation task and starts the next one.

pub mod scroll;
pub mod frame;
pub mod lifecycle;
pub mod font;
