//! The per-identity record and the failure taxonomy of the ledger.

use vstd::prelude::*;
use crate::identity::Hash256;

verus! {

/// The full view of one identity's record. An identity that has never
/// checked in reads as the all-zero record ([`UserSnapshot::spec_zero`]).
#[derive(Clone, Copy, Debug, PartialEq, Eq, Structural)]
pub struct UserSnapshot {
    /// Count of current consecutive qualifying days; at least 1 once any
    /// check-in has been accepted.
    pub streak: u32,
    /// Maximum `streak` ever observed; never below `streak`.
    pub longest: u32,
    /// Lifetime count of accepted check-ins; grows by exactly 1 per
    /// accepted check-in.
    pub total: u32,
    /// Sticky achievement bitmask; bits are only ever set, never cleared.
    pub milestones: u32,
    /// Timestamp in seconds of the most recent accepted check-in, or 0 if
    /// the identity has never checked in.
    pub last_check_in: u64,
    /// Client-supplied value, bounded by [`crate::rules::MAX_SCORE`].
    pub score: u16,
    /// Client-supplied categorical tag, unconstrained.
    pub label: u8,
    /// Caller-supplied event hash of the most recent accepted check-in,
    /// stored verbatim.
    pub prayer_hash: Hash256,
}

impl UserSnapshot {
    /// The record of an identity with no history.
    pub open spec fn spec_zero() -> UserSnapshot {
        UserSnapshot {
            streak: 0,
            longest: 0,
            total: 0,
            milestones: 0,
            last_check_in: 0,
            score: 0,
            label: 0,
            prayer_hash: Hash256 { hi: 0, lo: 0 },
        }
    }

    pub fn zeroed() -> (r: UserSnapshot)
        ensures
            r == UserSnapshot::spec_zero(),
    {
        UserSnapshot {
            streak: 0,
            longest: 0,
            total: 0,
            milestones: 0,
            last_check_in: 0,
            score: 0,
            label: 0,
            prayer_hash: Hash256 { hi: 0, lo: 0 },
        }
    }
}

/// Every way an operation of the registry can fail. All of these are fatal
/// to the enclosing operation: no field of any record changes when one is
/// returned.
#[derive(Clone, Copy, Debug, PartialEq, Eq, Structural)]
pub enum RegistryError {
    /// The supplied score exceeds [`crate::rules::MAX_SCORE`].
    InvalidInput,
    /// The identity already checked in within the last day.
    CadenceViolation,
    /// The streak or the lifetime total would wrap around.
    ArithmeticOverflow,
    /// A caller other than the owner invoked an owner-only operation.
    Unauthorized,
    /// No mirror endpoint is configured.
    MirrorUnset,
    /// The mirror endpoint rejected or failed the notification.
    MirrorSyncFailed,
}

} // verus!
