//! The details of a contract offer, and the message that is signed to
//! vouch for them.

use crate::entropy::{random_in_range, random_word};
use vstd::bytes::{spec_u64_to_le_bytes, u64_to_le_bytes};
use vstd::prelude::*;

verus! {

/// The least funding amount of an offer.
pub const FUNDING_FLOOR: u64 = 10_000;

/// Every funding amount is below this.
pub const FUNDING_CEILING: u64 = 1_000_000;

/// Every donation request is below this.
pub const DONATION_CEILING: u64 = 1_000;

/// What a responder offers: where to pay, how much funding it asks for, and
/// the donation it requests.
#[derive(Clone, Copy, Debug, PartialEq, Eq, Structural)]
pub struct ContractDetails {
    pub address: u64,
    pub funding_amount: u64,
    pub donation_request: u64,
}

impl ContractDetails {
    /// Both amounts lie in their ranges.
    pub open spec fn within_bounds(self) -> bool {
        &&& FUNDING_FLOOR <= self.funding_amount < FUNDING_CEILING
        &&& self.donation_request < DONATION_CEILING
    }

    pub fn is_within_bounds(&self) -> (ok: bool)
        ensures
            ok == self.within_bounds(),
    {
        FUNDING_FLOOR <= self.funding_amount && self.funding_amount < FUNDING_CEILING
            && self.donation_request < DONATION_CEILING
    }

    /// The bytes that are signed: address, funding amount and donation
    /// request, each as eight little-endian bytes, in this order.
    pub open spec fn spec_signing_message(self) -> Seq<u8> {
        spec_u64_to_le_bytes(self.address) + spec_u64_to_le_bytes(self.funding_amount)
            + spec_u64_to_le_bytes(self.donation_request)
    }

    pub fn signing_message(&self) -> (message: Vec<u8>)
        ensures
            message@ == self.spec_signing_message(),
    {
        let mut message = u64_to_le_bytes(self.address);
        let mut funding = u64_to_le_bytes(self.funding_amount);
        let mut donation = u64_to_le_bytes(self.donation_request);
        message.append(&mut funding);
        message.append(&mut donation);
        message
    }

    /// The signed structure: the signed message, then the signature.
    pub open spec fn spec_signed_payload(self, signature: Seq<u8>) -> Seq<u8> {
        self.spec_signing_message() + signature
    }

    pub fn signed_payload(&self, signature: &Vec<u8>) -> (payload: Vec<u8>)
        ensures
            payload@ == self.spec_signed_payload(signature@),
    {
        let mut payload = self.signing_message();
        let mut i: usize = 0;
        while i < signature.len()
            invariant
                i <= signature.len(),
                payload@ == self.spec_signing_message() + signature@.subrange(0, i as int),
            decreases signature.len() - i,
        {
            payload.push(signature[i]);
            assert(signature@.subrange(0, i + 1) =~= signature@.subrange(0, i as int).push(
                signature@[i as int],
            ));
            i = i + 1;
        }
        assert(signature@.subrange(0, i as int) =~= signature@);
        payload
    }

    /// Draws the details of a fresh offer. Whatever is drawn, both amounts
    /// lie in their ranges.
    pub fn generate() -> (details: ContractDetails)
        ensures
            details.within_bounds(),
    {
        ContractDetails {
            address: random_word(),
            funding_amount: random_in_range(FUNDING_FLOOR, FUNDING_CEILING),
            donation_request: random_in_range(0, DONATION_CEILING),
        }
    }
}

} // verus!
