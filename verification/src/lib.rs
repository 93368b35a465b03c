//! Decision logic of a remote-shell session bridge: every choice the bridge
//! makes between two pieces of outside work is a verified function here.

pub mod auth;
pub mod bridge;
pub mod channel;
pub mod error;
pub mod posix;
pub mod remote_pane;
pub mod run;
pub mod session;
