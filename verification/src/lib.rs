//! A line-oriented text-editing core: a modal state machine (normal, command,
//! input and exit-confirmation modes) over a rope-backed document, with a
//! store that serializes actions and records every committed state.
//!
//! The editing discipline is immediate insertion: each `AddChar` applied in
//! input mode inserts one character into the document at the cursor, and
//! `Enter` inserts a line break; nothing is batched until mode exit.

pub mod action;
pub mod document;
pub mod mapper;
pub mod mode;
pub mod store;
pub mod text;
