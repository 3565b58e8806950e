//! The core of a modal terminal text editor: a document of lines, a cursor
//! and a scrolled window onto it, edits that keep both valid, a planner that
//! turns each change into terminal commands that touch only what changed, a
//! model of the terminal under which those commands are proved to leave the
//! screen showing the new window, and a dispatcher from keys to actions.

pub mod buffer;
pub mod tracker;
pub mod edit;
pub mod render;
pub mod dispatch;
pub mod editor;
pub mod screen;
