//! What an application asks of the service over the command channel, and
//! what it gets back. Each travels paired with the identifier it is about.

use crate::identity::PublicIdentity;
use vstd::prelude::*;

verus! {

/// A command from the application.
#[derive(Clone, Copy, Debug, PartialEq, Eq)]
pub enum Request {
    /// Commit to a fresh secret for the named peer.
    Secret(PublicIdentity),
}

/// The service's answer to a command.
#[derive(Clone, Debug, PartialEq, Eq)]
pub enum Response {
    /// The commitment to the secret: its digest, never the secret itself.
    Secret(Vec<u8>),
}

} // verus!
