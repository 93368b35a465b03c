//! The ways a session can fail.

use vstd::prelude::*;

verus! {

/// The request of the remote-channel setup that was refused.
#[derive(Clone, Copy, Debug, PartialEq, Eq, Structural)]
pub enum SetupStage {
    /// Opening the session channel.
    OpenSession,
    /// Asking for a remote pseudo-terminal.
    RequestPty,
    /// Forwarding an environment variable.
    SetEnv,
    /// Asking for the interactive shell.
    RequestShell,
}

/// Why a session did not start, or why it ended early.
#[derive(Clone, Copy, Debug, PartialEq, Eq, Structural)]
pub enum Error {
    /// An operating-system call failed; the payload is the OS error code.
    Io(i32),
    /// The key agent could not be reached or did not answer.
    AgentUnavailable,
    /// The key agent holds no identity.
    NoIdentities,
    /// Every identity of the agent was tried and none was accepted.
    AuthExhausted,
    /// The secure transport could not be established.
    Transport,
    /// A request of the remote-channel setup was refused.
    ChannelSetup(SetupStage),
    /// A read or write failed during the relay for a reason other than
    /// "would block"; the payload is the OS error code.
    RelayIo(i32),
}

impl Error {
    /// The OS error code that an I/O failure carries.
    pub open spec fn os_code(self) -> Option<i32> {
        match self {
            Error::Io(code) => Some(code),
            Error::RelayIo(code) => Some(code),
            _ => None,
        }
    }

    /// The OS error code of an I/O failure, `None` for the other errors.
    pub fn code(&self) -> (code: Option<i32>)
        ensures
            code == self.os_code(),
    {
        match self {
            Error::Io(code) => Some(*code),
            Error::RelayIo(code) => Some(*code),
            _ => None,
        }
    }
}

} // verus!
