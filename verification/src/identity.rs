//! Plain-value forms of the two wide scalars the ledger works with: a
//! 160-bit participant identity and a 256-bit event hash.

use vstd::prelude::*;

verus! {

/// A 160-bit identity, split into its top 4 bytes and bottom 16 bytes.
///
/// The all-zero value is the sentinel "unset" identity: a registry whose
/// mirror is unset rejects every check-in.
#[derive(Clone, Copy, Debug, PartialEq, Eq, Structural)]
pub struct Identity {
    /// Top 4 bytes of the identity, big-endian.
    pub hi: u32,
    /// Bottom 16 bytes of the identity, big-endian.
    pub lo: u128,
}

impl Identity {
    /// The sentinel "unset" identity.
    pub open spec fn is_zero(self) -> bool {
        self.hi == 0 && self.lo == 0
    }

    pub fn zero() -> (r: Identity)
        ensures
            r.is_zero(),
    {
        Identity { hi: 0, lo: 0 }
    }

    pub fn is_unset(&self) -> (r: bool)
        ensures
            r == self.is_zero(),
    {
        self.hi == 0 && self.lo == 0
    }
}

/// A 256-bit event hash, stored verbatim as two 128-bit halves.
#[derive(Clone, Copy, Debug, PartialEq, Eq, Structural)]
pub struct Hash256 {
    /// Top 16 bytes of the hash, big-endian.
    pub hi: u128,
    /// Bottom 16 bytes of the hash, big-endian.
    pub lo: u128,
}

} // verus!
