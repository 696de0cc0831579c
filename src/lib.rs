//! Compose a rich-presence profile and publish it to a locally running chat
//! client over its IPC socket.
//!
//! The heart of the crate is [`presence::Presence`], the worker state that
//! owns the IPC session, turns an [`activity::Activity`] into the payload the
//! client expects, and answers each command with at most one status event.

pub mod activity;
pub mod calendar;
pub mod editor;
pub mod ipc;
pub mod laws;
pub mod paths;
pub mod presence;
pub mod settings;
pub mod tray;
