//! The decisions of a small desktop shell, kept apart from the host that
//! carries them out.
//!
//! The host looks up the application data directory, touches the file system
//! and talks to the window. How far it came goes to this crate as plain
//! values, and this crate says what each command answers, failures included.

pub mod command;
pub mod info;
pub mod json;
pub mod reply;
