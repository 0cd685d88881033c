//! Failures of the transport seen by a session.

use vstd::prelude::*;

verus! {

/// A failed write to, or read from, a client connection.
#[derive(PartialEq, Eq, Structural, Clone, Copy, Debug)]
pub enum IoError {
    CouldNotWrite,
    UserDisconnected,
}

impl IoError {
    /// Human-readable description of the failure.
    pub fn message(&self) -> (r: String)
        ensures
            r@ == "IO error. User disconnected."@,
    {
        "IO error. User disconnected.".to_owned()
    }
}

} // verus!
