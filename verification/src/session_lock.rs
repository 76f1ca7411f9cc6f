//! Options and errors for session-lock windows: lock screens that take
//! exclusive access to all outputs until the session is unlocked. The
//! protocol plumbing itself lives in the embedding layer.

use vstd::prelude::*;

verus! {

/// Options for creating a session-lock window.
#[derive(Clone, Debug, PartialEq, Eq)]
pub struct SessionLockOptions {
    /// Optional namespace for the lock surface; compositors can use it to
    /// apply special rules.
    pub namespace: Option<String>,
}

impl SessionLockOptions {
    /// Options with no namespace.
    pub fn new() -> (r: SessionLockOptions)
        ensures
            r.namespace is None,
    {
        SessionLockOptions { namespace: None }
    }
}

/// An action failed because the compositor does not support the
/// session-lock protocol.
#[derive(Clone, Copy, Debug, PartialEq, Eq, Structural)]
pub struct SessionLockNotSupportedError;

} // verus!
