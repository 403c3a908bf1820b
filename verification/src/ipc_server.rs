//! The socket on which the daemon listens.

use vstd::prelude::*;

verus! {

/// What is done before the daemon listens on its socket.
#[derive(Clone, Copy, Debug, PartialEq, Eq, Structural)]
pub enum TidyAction {
    /// Nothing is in the way.
    Continue,
    /// The file of the socket was left behind, and is removed.
    Remove,
    /// The pipe is there and broken.
    Fail,
    /// Another daemon listens.
    AlreadyRunning,
}

/// Decides what is done before the daemon listens on its socket. `exists` says whether the file of
/// the socket is there, `connected` whether somebody took a connection, and `sent` whether a message
/// could be sent over it. On Windows there is a named pipe in the place of the file.
pub fn ipc_tidy(windows: bool, exists: bool, connected: bool, sent: bool) -> (action: TidyAction)
    ensures
        action == (if !windows && !exists {
            TidyAction::Continue
        } else if connected && sent {
            TidyAction::AlreadyRunning
        } else if !windows {
            TidyAction::Remove
        } else if connected {
            TidyAction::Fail
        } else {
            TidyAction::Continue
        }),
{
    if !windows && !exists {
        return TidyAction::Continue;
    }
    if !connected {
        return if windows {
            TidyAction::Continue
        } else {
            TidyAction::Remove
        };
    }
    if !sent {
        return if windows {
            TidyAction::Fail
        } else {
            TidyAction::Remove
        };
    }
    TidyAction::AlreadyRunning
}

} // verus!
