//! Opaque 32-byte account identities.
//!
//! The runtime authenticates callers cryptographically before a
//! transition runs; inside the ledger an identity is only stored and
//! compared for equality, never verified. It is therefore modelled as
//! a fixed-width opaque key.

use vstd::prelude::*;

verus! {

/// A 32-byte opaque key naming an account: an authority, a holder, or
/// the descriptor of the fungible unit itself.
#[derive(Clone, Copy, PartialEq, Eq, Debug)]
pub struct AccountId {
    pub bytes: [u8; 32],
}

impl AccountId {
    /// Wraps raw key bytes as an identity.
    pub fn new(bytes: [u8; 32]) -> (id: AccountId)
        ensures
            id.bytes == bytes,
    {
        AccountId { bytes }
    }
}

} // verus!
