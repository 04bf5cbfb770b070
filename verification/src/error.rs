//! What can go wrong with the node itself. Trouble in the wider network is
//! never an error: it reaches the application as an event.
use crate::role::Module;
use vstd::prelude::*;

verus! {

/// Why a listen request was turned down.
#[derive(Clone, Copy, Debug, PartialEq, Eq, Hash, Structural)]
pub enum BindError {
    /// A listener was already asked for on this very address.
    AddressInUse,
    /// The address cannot be listened on.
    AddressUnusable,
    /// The listener identifier is already held by this node.
    ListenerExists,
}

/// How the transport answers a bind that it turns down: `unsupported` where
/// it cannot listen on addresses of this kind at all, `taken` where the
/// address is held by someone else.
pub open spec fn bind_error_of(unsupported: bool, taken: bool) -> BindError {
    if !unsupported && taken {
        BindError::AddressInUse
    } else {
        BindError::AddressUnusable
    }
}

impl BindError {
    /// The error for a bind that the transport turned down: in use where the
    /// address is of a kind the transport serves and is held already,
    /// unusable in every other case.
    pub fn from_transport(unsupported: bool, taken: bool) -> (error: BindError)
        ensures
            error == bind_error_of(unsupported, taken),
    {
        if !unsupported && taken {
            BindError::AddressInUse
        } else {
            BindError::AddressUnusable
        }
    }
}

/// A module that could not be brought up, and why.
#[derive(Clone, Debug, PartialEq, Eq)]
pub struct CompositeBuildError {
    pub module: Module,
    pub cause: String,
}

/// An error of the node.
#[derive(Clone, Debug, PartialEq, Eq)]
pub enum NodeError {
    /// The role registers with a rendezvous server and no address of one was
    /// configured.
    MissingRendezvousAddress,
    /// One of the modules failed to start; no node exists.
    CompositeBuild(CompositeBuildError),
    /// A listen request was turned down.
    Bind(BindError),
    /// The node has closed for good.
    Closed,
}

} // verus!
