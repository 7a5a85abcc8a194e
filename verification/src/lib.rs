//! The editing core of a plain-text editor: a document with a bounded undo
//! history and the state machine that applies editor actions to it.

pub mod actions;
pub mod application_model;
pub mod document;
pub mod lemmas;
pub mod path;
pub mod status;
