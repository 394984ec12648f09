//! A safe control surface for a single-threaded, callback-driven download
//! engine: the process-wide engine lifecycle, the session run loop with its
//! event mailbox, poll-scoped download handles, and the identifier utilities.
//!
//! The engine itself is an outside collaborator. Every function here is a
//! decision from plain values to plain values: the caller performs the engine
//! call that a function asks for and hands the engine's answer back.

pub mod actions;
pub mod download_handle;
pub mod errors;
pub mod events;
pub mod ffi;
pub mod gid;
pub mod session;
