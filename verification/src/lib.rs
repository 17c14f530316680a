//! The input and redraw core of a small terminal screen editor.
//!
//! The screen has three regions, painted from the top: a content window that
//! is filled with marker lines, one blank status line, and a command bar that
//! shows a single-line input buffer. Every key changes the buffer according
//! to a four-column state table, and every frame is described as a short list
//! of drawing steps that a terminal front end carries out in order.

pub mod command_bar;
pub mod context;
pub mod draw;
pub mod key;
pub mod paint;
pub mod status_bar;
pub mod window;

pub use command_bar::CommandBar;
pub use context::Context;
pub use draw::{cycle, frame, render, Draw};
pub use key::Key;
pub use status_bar::StatusBar;
pub use window::Window;
