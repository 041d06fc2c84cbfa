//! An interactive SQL notebook's state machine: an ordered store of cells,
//! the key-driven modes that act on it, and the confirmation dialog that
//! guards destructive actions.
//!
//! The notebook changes only through [`handler::Handler`], one message at a
//! time. What each message does is written down once, as functions on the
//! notebook's view, in [`transition`]; the handler is proved to do exactly
//! that, and [`laws`] holds what follows for every notebook.
//!
//! Three things are left to others and reached through small unverified
//! functions: the edit buffer is a `tui_textarea::TextArea` ([`editor`]),
//! new cells get random identifiers from `uuid` ([`cell`]), and the
//! statements to run leave through a channel of the standard library
//! ([`handler`]).

pub mod cell;
pub mod cells;
pub mod editor;
pub mod handler;
pub mod keys;
pub mod laws;
pub mod message;
pub mod model;
pub mod state;
pub mod text;
pub mod transition;
pub mod view;
