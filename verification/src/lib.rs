//! The core of a terminal music player: a library index built from scanned
//! audio files, two-pane navigation over it, and a playback session that
//! drives one external player process through a write-only control channel.
//!
//! Nothing in this crate touches the outside world. Every operation that
//! needs a process to be started or signalled, or a message to be sent,
//! returns a request that says exactly what the host must do, and the host
//! reports the outcome back through the matching completion.

pub mod app;
pub mod control;
pub mod key_event;
pub mod library;
pub mod player;
pub mod protocol;
pub mod screen;
pub mod session;
pub mod text;
pub mod track;
