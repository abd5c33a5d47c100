//! Opaque account identities.
//!
//! The surrounding system identifies signers, markets, mints and records by
//! addresses that the core only ever compares for equality. The core models
//! such an address as a plain integer handle.

use vstd::prelude::*;

verus! {

/// An opaque account identity; the core only compares these for equality.
#[derive(Clone, Copy, Debug, PartialEq, Eq, Structural)]
pub struct Pubkey(pub u64);

impl Default for Pubkey {
    /// The all-zero identity, used as a placeholder before a record is bound.
    fn default() -> (r: Pubkey)
        ensures
            r == (Pubkey(0)),
    {
        Pubkey(0)
    }
}

} // verus!
