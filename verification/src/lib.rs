//! A terminal viewer for text files: a line model indexed by grapheme
//! cluster, a document of lines, a viewport with its cursor and scroll
//! arithmetic, and the composition of frames from them.

pub mod buffer;
pub mod config;
pub mod content;
pub mod editor;
pub mod format;
pub mod highlight;
pub mod session;
pub mod terminal;
