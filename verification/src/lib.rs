//! A terminal text buffer and viewport engine.
//!
//! Text is held as lines of grapheme clusters. Every cluster has a display
//! width of one or two terminal columns, and the cursor is kept in two
//! coordinate spaces at once: grapheme indices for editing and display
//! columns for rendering.

pub mod documentstatus;
pub mod editor;
pub mod editorcommand;
pub mod fileinfo;
pub mod line;
pub mod location;
pub mod messagebar;
pub mod statusbar;
pub mod terminal;
pub mod text;
pub mod unicode;
pub mod view;
