//! The core of a small text editor that draws nothing itself: it keeps a text
//! with a cursor and a viewport, takes input events from a display server,
//! and answers with drawing commands, both over a protocol of plain lines.
//!
//! - [`store`] holds the text, addressed by offset, in a gap buffer.
//! - [`scan`] is the mathematics of lines: newline counts and boundary scans.
//! - [`model`] describes the editor's state and what each action does to it;
//!   [`laws`] proves what holds of that description.
//! - [`editor`] is the editor itself, specified against the model, and
//!   [`render`] says what it shows.
//! - [`keys`] turns key events into actions.
//! - [`client`] decodes input lines into events and writes drawing commands
//!   as lines; [`draw`] names those commands, and [`fields`] and [`strings`]
//!   are the pieces that lines are taken apart and put together with.
//! - [`lines`] walks a text line by line.

pub mod client;
pub mod draw;
pub mod editor;
pub mod fields;
pub mod keys;
pub mod laws;
pub mod lines;
pub mod model;
pub mod render;
pub mod scan;
pub mod store;
pub mod strings;
