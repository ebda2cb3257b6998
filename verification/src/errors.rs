//! The failure taxonomy shared by fetches and mutations: transport faults,
//! domain rejections from the remote API, and local session faults. None is
//! retried automatically; retry is a user action.

use vstd::prelude::*;

verus! {

/// Why a fetch or a mutation failed.
#[derive(Clone, Copy, Debug, PartialEq, Eq, Structural)]
pub enum ErrorInfo {
    /// The network or the remote end was unavailable.
    TransportError,
    /// The remote API answered with a domain error (for instance bad
    /// credentials).
    RemoteRejection,
    /// The local session store could not be read or written.
    SessionError,
}

} // verus!
