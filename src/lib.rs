//! A small full-screen text editor: a buffer that grows and shrinks at its
//! end, the rules that turn key presses into edits, saves and redraws, and
//! the commands that repaint the screen.

pub mod buffer;
pub mod editor;
pub mod laws;
pub mod screen;
