//! Identities: the public key by which a peer is known, and the private
//! identity with which an instance signs.

use crate::index::{index_of, spec_index_of};
use copernica_packets::PrivateIdentityInterface;
use vstd::prelude::*;

verus! {

/// The number of bytes in a signature.
pub const SIGNATURE_SIZE: usize = 64;

/// The private identity of the packet crate. The library carries it and
/// never looks inside.
#[verifier::external_type_specification]
#[verifier::external_body]
pub struct ExPrivateIdentityInterface(PrivateIdentityInterface);

/// A peer's public identity: its key of 32 bytes followed by its chain code
/// of 32 bytes.
#[derive(Clone, Copy, Debug, PartialEq, Eq)]
pub struct PublicIdentity {
    pub key: [u8; 64],
}

/// The text form of the identity with the given bytes: what the packet
/// crate's `PublicIdentity` displays as.
pub uninterp spec fn identity_text_of(key: Seq<u8>) -> Seq<char>;

/// Formats an identity as `copernica_packets::PublicIdentity` displays it,
/// after `PublicIdentity::from` has taken the bytes.
///
/// Trusted: that the text depends on the bytes alone.
#[verifier::external_body]
pub(crate) fn identity_text(key: &[u8; 64]) -> (text: String)
    ensures
        text@ == identity_text_of(key@),
{
    format!("{}", copernica_packets::PublicIdentity::from(*key))
}

/// The public identity that belongs to a private one, from
/// `PrivateIdentityInterface::public_id`: the bytes of its key, then those
/// of its chain code.
#[verifier::external_body]
pub(crate) fn public_identity_of(sid: &PrivateIdentityInterface) -> (pid: PublicIdentity) {
    let public = sid.public_id();
    let mut key = [0u8; 64];
    key[..32].copy_from_slice(public.key().as_ref());
    key[32..].copy_from_slice(public.chain_code().as_ref());
    PublicIdentity { key }
}

/// Signs `message` with the signing key of `sid`
/// (`PrivateIdentityInterface::signing_key`, `PrivateSigningKey::sign`).
///
/// Trusted: the length of the signature.
#[verifier::external_body]
pub(crate) fn sign(sid: &PrivateIdentityInterface, message: &[u8]) -> (signature: Vec<u8>)
    ensures
        signature@.len() == SIGNATURE_SIZE,
{
    sid.signing_key().sign(message).as_ref().to_vec()
}

impl PublicIdentity {
    /// The filter index that stands for the identity on the wire: the index
    /// of its text form.
    pub open spec fn spec_index(self) -> Option<u64> {
        spec_index_of(identity_text_of(self.key@))
    }

    pub fn index(&self) -> (index: Option<u64>)
        ensures
            index == self.spec_index(),
    {
        let text = identity_text(&self.key);
        index_of(text.as_str())
    }
}

/// The index of a requester that may be absent: `Some(None)` for no
/// requester, `Some(Some(index))` for one with an index, and `None` for one
/// whose identity has no index.
pub open spec fn spec_requester_index(requester: Option<PublicIdentity>) -> Option<Option<u64>> {
    match requester {
        Some(pid) => match pid.spec_index() {
            Some(index) => Some(Some(index)),
            None => None,
        },
        None => Some(None),
    }
}

} // verus!
