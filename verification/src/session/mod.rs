//! Per-stream actor state machine, playout slots, and generation control.
//!
//! Playlist policy stays with the owner of a stream. A session only manages the
//! current and next track slots of one realtime stream.
//!
//! [`spec`] says what each command and event does to an actor; [`actor`] is the
//! actor itself; [`conduct`] holds what an owner can count on in each of them;
//! [`laws`] holds what follows for whole conversations.

pub mod actor;
pub mod conduct;
pub mod laws;
pub mod mailbox;
pub mod spec;
pub mod types;
