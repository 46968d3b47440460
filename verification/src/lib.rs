//! Lifecycle supervision for a desktop shell that depends on a background
//! worker process: connection credentials, port arbitration, the launch
//! protocol, crash handling, and the update check / install state machine.
//!
//! But for the draw of random bytes behind a token, every function here is a
//! decision over plain values. The embedding application performs the I/O
//! those decisions ask for (sockets, processes, dialogs, timers) and feeds
//! the outcomes back in.

pub mod about;
pub mod commands;
pub mod connection;
pub mod decimal;
pub mod launch;
pub mod port;
pub mod state;
pub mod token;
pub mod tray;
pub mod updates;
pub mod windows;
pub mod worker;
