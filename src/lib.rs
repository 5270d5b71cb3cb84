//! Switch to a multiplexer session picked with a fuzzy finder, creating it
//! first when no session of that name exists.
pub mod flow;
pub mod input;
pub mod lines;
pub mod tmux;
