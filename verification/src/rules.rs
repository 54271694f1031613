//! The check-in state machine and the milestone evaluator.
//!
//! [`check_in_result`] is the whole transition rule of the ledger: given
//! the previous record of an identity and the inputs of a check-in, it
//! says exactly which record is stored on acceptance and which error is
//! returned on rejection. [`apply_check_in`] computes it.

use vstd::prelude::*;
use crate::identity::Hash256;
use crate::record::RegistryError;
use crate::record::UserSnapshot;

verus! {

/// Minimum spacing in seconds between two accepted check-ins.
pub const DAY_SECONDS: u64 = 86400;

/// Largest score a check-in may carry.
pub const MAX_SCORE: u16 = 10000;

/// The milestone bits earned by a streak value: bit k of the result is set
/// exactly when the streak equals the k-th threshold of
/// {7, 14, 21, 28, 60, 90}. A streak between thresholds earns nothing; the
/// bits already stored are kept by merging with bitwise or.
pub open spec fn spec_milestone_bits(streak: u32) -> u32 {
    if streak == 7 {
        1u32
    } else if streak == 14 {
        2u32
    } else if streak == 21 {
        4u32
    } else if streak == 28 {
        8u32
    } else if streak == 60 {
        16u32
    } else if streak == 90 {
        32u32
    } else {
        0u32
    }
}

/// Exact-match milestone evaluation.
pub fn milestone_bits(streak: u32) -> (r: u32)
    ensures
        r == spec_milestone_bits(streak),
{
    if streak == 7 {
        1
    } else if streak == 14 {
        2
    } else if streak == 21 {
        4
    } else if streak == 28 {
        8
    } else if streak == 60 {
        16
    } else if streak == 90 {
        32
    } else {
        0
    }
}

/// The transition rule of the check-in state machine.
///
/// Validation comes first: an oversized score is `InvalidInput`; a second
/// check-in less than a day after the previous one is `CadenceViolation`.
/// The new streak is 1 on a first-ever check-in, grows by 1 inside the
/// grace window of under two days, and resets to 1 after a missed day.
/// A streak or total that would wrap is `ArithmeticOverflow`. On success
/// the stored record carries the new streak, the running maximum streak,
/// the total grown by 1, the merged milestone bits, the check-in time and
/// the three caller-supplied values.
pub open spec fn check_in_result(
    prev: UserSnapshot,
    now: u64,
    prayer_hash: Hash256,
    score: u16,
    label: u8,
) -> Result<UserSnapshot, RegistryError> {
    if score > MAX_SCORE {
        Err(RegistryError::InvalidInput)
    } else if prev.last_check_in != 0 && (now as int) < prev.last_check_in + DAY_SECONDS {
        Err(RegistryError::CadenceViolation)
    } else if prev.last_check_in != 0 && (now as int) < prev.last_check_in + 2 * DAY_SECONDS
        && prev.streak == u32::MAX {
        Err(RegistryError::ArithmeticOverflow)
    } else if prev.total == u32::MAX {
        Err(RegistryError::ArithmeticOverflow)
    } else {
        let streak: u32 = if prev.last_check_in == 0 {
            1u32
        } else if (now as int) < prev.last_check_in + 2 * DAY_SECONDS {
            (prev.streak + 1) as u32
        } else {
            1u32
        };
        Ok(
            UserSnapshot {
                streak,
                longest: if prev.longest >= streak {
                    prev.longest
                } else {
                    streak
                },
                total: (prev.total + 1) as u32,
                milestones: prev.milestones | spec_milestone_bits(streak),
                last_check_in: now,
                score,
                label,
                prayer_hash,
            },
        )
    }
}

/// Computes the transition rule.
pub fn apply_check_in(
    prev: &UserSnapshot,
    now: u64,
    prayer_hash: Hash256,
    score: u16,
    label: u8,
) -> (r: Result<UserSnapshot, RegistryError>)
    ensures
        r == check_in_result(*prev, now, prayer_hash, score, label),
{
    if score > MAX_SCORE {
        return Err(RegistryError::InvalidInput);
    }
    if prev.last_check_in != 0 && (now < prev.last_check_in || now - prev.last_check_in
        < DAY_SECONDS) {
        return Err(RegistryError::CadenceViolation);
    }
    let streak: u32 = if prev.last_check_in == 0 {
        1
    } else if now - prev.last_check_in < 2 * DAY_SECONDS {
        if prev.streak == u32::MAX {
            return Err(RegistryError::ArithmeticOverflow);
        }
        prev.streak + 1
    } else {
        1
    };
    if prev.total == u32::MAX {
        return Err(RegistryError::ArithmeticOverflow);
    }
    let longest: u32 = if prev.longest >= streak {
        prev.longest
    } else {
        streak
    };
    Ok(
        UserSnapshot {
            streak,
            longest,
            total: prev.total + 1,
            milestones: prev.milestones | milestone_bits(streak),
            last_check_in: now,
            score,
            label,
            prayer_hash: prayer_hash,
        },
    )
}

/// A valid first check-in at any time `now` is accepted and stores
/// streak 1, longest 1, total 1, no milestones, and `now` as the last
/// check-in time.
pub proof fn lemma_first_check_in(now: u64, prayer_hash: Hash256, score: u16, label: u8)
    requires
        score <= MAX_SCORE,
    ensures
        check_in_result(UserSnapshot::spec_zero(), now, prayer_hash, score, label)
            == Ok::<UserSnapshot, RegistryError>(
            UserSnapshot {
                streak: 1,
                longest: 1,
                total: 1,
                milestones: 0,
                last_check_in: now,
                score,
                label,
                prayer_hash,
            },
        ),
{
    assert((0u32 | 0u32) == 0u32) by (bit_vector);
}

/// A check-in inside the grace window — at least one day but less than
/// two days after the previous one — is accepted and grows the streak by
/// 1, grows the total by 1, and sets the longest streak to the running
/// maximum.
pub proof fn lemma_grace_window_extends_streak(
    prev: UserSnapshot,
    now: u64,
    prayer_hash: Hash256,
    score: u16,
    label: u8,
)
    requires
        score <= MAX_SCORE,
        prev.last_check_in != 0,
        prev.last_check_in + DAY_SECONDS <= now as int,
        (now as int) < prev.last_check_in + 2 * DAY_SECONDS,
        prev.streak < u32::MAX,
        prev.total < u32::MAX,
    ensures
        check_in_result(prev, now, prayer_hash, score, label) matches Ok(rec) && {
            &&& rec.streak == prev.streak + 1
            &&& rec.total == prev.total + 1
            &&& rec.longest == if prev.longest >= prev.streak + 1 {
                prev.longest as int
            } else {
                prev.streak + 1
            }
            &&& rec.last_check_in == now
        },
{
}

/// A check-in two days or more after the previous one is accepted and
/// resets the streak to 1; the total still grows by 1, and the longest
/// streak keeps its prior maximum unless the new streak exceeds it.
pub proof fn lemma_missed_day_resets_streak(
    prev: UserSnapshot,
    now: u64,
    prayer_hash: Hash256,
    score: u16,
    label: u8,
)
    requires
        score <= MAX_SCORE,
        prev.last_check_in != 0,
        prev.last_check_in + 2 * DAY_SECONDS <= now as int,
        prev.total < u32::MAX,
    ensures
        check_in_result(prev, now, prayer_hash, score, label) matches Ok(rec) && {
            &&& rec.streak == 1
            &&& rec.total == prev.total + 1
            &&& rec.longest == if prev.longest >= 1 {
                prev.longest as int
            } else {
                1
            }
            &&& rec.last_check_in == now
        },
{
}

/// The record left by a whole run of check-ins, replayed in order; the
/// first rejection, if any, is the run's outcome.
pub open spec fn replay_check_ins(
    start: UserSnapshot,
    times: Seq<u64>,
    prayer_hash: Hash256,
    score: u16,
    label: u8,
) -> Result<UserSnapshot, RegistryError>
    decreases times.len(),
{
    if times.len() == 0 {
        Ok(start)
    } else {
        match check_in_result(start, times[0], prayer_hash, score, label) {
            Err(e) => Err(e),
            Ok(next) => replay_check_ins(next, times.drop_first(), prayer_hash, score, label),
        }
    }
}

/// A run of check-ins each spaced at least one day but less than two
/// days after the one before is accepted whole: the streak grows by 1
/// per check-in, the total grows by 1 per check-in, and the longest
/// streak tracks the running maximum.
pub proof fn lemma_daily_run_grows_streak(
    start: UserSnapshot,
    times: Seq<u64>,
    prayer_hash: Hash256,
    score: u16,
    label: u8,
)
    requires
        score <= MAX_SCORE,
        start.last_check_in != 0,
        times.len() >= 1,
        start.streak + times.len() <= u32::MAX,
        start.total + times.len() <= u32::MAX,
        start.last_check_in + DAY_SECONDS <= times[0],
        (times[0] as int) < start.last_check_in + 2 * DAY_SECONDS,
        forall|k: int|
            0 <= k < times.len() - 1 ==> (#[trigger] times[k]) + DAY_SECONDS <= times[k + 1]
                && (times[k + 1] as int) < times[k] + 2 * DAY_SECONDS,
    ensures
        replay_check_ins(start, times, prayer_hash, score, label) matches Ok(fin) && {
            &&& fin.streak == start.streak + times.len()
            &&& fin.total == start.total + times.len()
            &&& fin.longest == if start.longest >= start.streak + times.len() {
                start.longest as int
            } else {
                start.streak + times.len()
            }
            &&& fin.last_check_in == times[times.len() - 1]
        },
    decreases times.len(),
{
    let step = check_in_result(start, times[0], prayer_hash, score, label);
    assert(step is Ok);
    let next = step->Ok_0;
    if times.len() == 1 {
        assert(replay_check_ins(next, times.drop_first(), prayer_hash, score, label) == Ok::<
            UserSnapshot,
            RegistryError,
        >(next));
    } else {
        let rest = times.drop_first();
        assert(rest[0] == times[1]);
        assert(next.last_check_in == times[0]);
        assert(times[0] + DAY_SECONDS <= times[1] && (times[1] as int) < times[0] + 2
            * DAY_SECONDS);
        assert forall|k: int|
            0 <= k < rest.len() - 1 implies (#[trigger] rest[k]) + DAY_SECONDS <= rest[k + 1]
            && (rest[k + 1] as int) < rest[k] + 2 * DAY_SECONDS by {
            assert(rest[k] == times[k + 1]);
            assert(rest[k + 1] == times[k + 2]);
        }
        lemma_daily_run_grows_streak(next, rest, prayer_hash, score, label);
        assert(rest[rest.len() - 1] == times[times.len() - 1]);
    }
}

/// A check-in less than a day after the previous one is rejected with
/// `CadenceViolation`, whatever else it carries.
pub proof fn lemma_cadence_violation_rejected(
    prev: UserSnapshot,
    now: u64,
    prayer_hash: Hash256,
    score: u16,
    label: u8,
)
    requires
        score <= MAX_SCORE,
        prev.last_check_in != 0,
        (now as int) < prev.last_check_in + DAY_SECONDS,
    ensures
        check_in_result(prev, now, prayer_hash, score, label) == Err::<
            UserSnapshot,
            RegistryError,
        >(RegistryError::CadenceViolation),
{
}

/// A check-in whose score exceeds the bound is rejected with
/// `InvalidInput`, whatever else it carries.
pub proof fn lemma_oversized_score_rejected(
    prev: UserSnapshot,
    now: u64,
    prayer_hash: Hash256,
    score: u16,
    label: u8,
)
    requires
        score > MAX_SCORE,
    ensures
        check_in_result(prev, now, prayer_hash, score, label) == Err::<
            UserSnapshot,
            RegistryError,
        >(RegistryError::InvalidInput),
{
}

/// Every accepted check-in keeps the record's invariants: the streak is
/// at least 1, the longest streak never falls below the current one nor
/// below its prior value, the total grows by exactly 1, and the recorded
/// check-in time is `now`, strictly after the previous one.
pub proof fn lemma_accepted_check_in_invariants(
    prev: UserSnapshot,
    now: u64,
    prayer_hash: Hash256,
    score: u16,
    label: u8,
)
    ensures
        check_in_result(prev, now, prayer_hash, score, label) matches Ok(rec) ==> {
            &&& rec.streak >= 1
            &&& rec.longest >= rec.streak
            &&& rec.longest >= prev.longest
            &&& rec.total == prev.total + 1
            &&& rec.last_check_in == now
            &&& prev.last_check_in != 0 ==> rec.last_check_in > prev.last_check_in
        },
{
}

/// Success is owed to a patient caller: a check-in with a valid score,
/// made a day or more after the previous one, is accepted whenever the
/// streak and total have room to grow.
pub proof fn lemma_check_in_after_wait_accepted(
    prev: UserSnapshot,
    now: u64,
    prayer_hash: Hash256,
    score: u16,
    label: u8,
)
    requires
        score <= MAX_SCORE,
        prev.last_check_in + DAY_SECONDS <= now as int,
        prev.streak < u32::MAX,
        prev.total < u32::MAX,
    ensures
        check_in_result(prev, now, prayer_hash, score, label) is Ok,
{
}

/// Milestone bits are sticky: every bit set before an accepted check-in
/// is still set after it.
pub proof fn lemma_milestones_sticky(
    prev: UserSnapshot,
    now: u64,
    prayer_hash: Hash256,
    score: u16,
    label: u8,
)
    ensures
        check_in_result(prev, now, prayer_hash, score, label) matches Ok(rec) ==> (rec.milestones
            & prev.milestones) == prev.milestones,
{
    if check_in_result(prev, now, prayer_hash, score, label) is Ok {
        let rec = check_in_result(prev, now, prayer_hash, score, label)->Ok_0;
        let m = prev.milestones;
        let b = spec_milestone_bits(rec.streak);
        assert(((m | b) & m) == m) by (bit_vector);
    }
}

/// An accepted check-in sets each milestone bit exactly when it was
/// already set or the new streak lands exactly on that bit's threshold.
pub proof fn lemma_milestones_exact(
    prev: UserSnapshot,
    now: u64,
    prayer_hash: Hash256,
    score: u16,
    label: u8,
)
    ensures
        check_in_result(prev, now, prayer_hash, score, label) matches Ok(rec) ==> {
            &&& (rec.milestones & 1 != 0 <==> (prev.milestones & 1 != 0 || rec.streak == 7))
            &&& (rec.milestones & 2 != 0 <==> (prev.milestones & 2 != 0 || rec.streak == 14))
            &&& (rec.milestones & 4 != 0 <==> (prev.milestones & 4 != 0 || rec.streak == 21))
            &&& (rec.milestones & 8 != 0 <==> (prev.milestones & 8 != 0 || rec.streak == 28))
            &&& (rec.milestones & 16 != 0 <==> (prev.milestones & 16 != 0 || rec.streak == 60))
            &&& (rec.milestones & 32 != 0 <==> (prev.milestones & 32 != 0 || rec.streak == 90))
        },
{
    if check_in_result(prev, now, prayer_hash, score, label) is Ok {
        let rec = check_in_result(prev, now, prayer_hash, score, label)->Ok_0;
        let m = prev.milestones;
        let s = rec.streak;
        let b = spec_milestone_bits(s);
        assert(rec.milestones == m | b);
        assert((b == if s == 7 {
            1u32
        } else if s == 14 {
            2u32
        } else if s == 21 {
            4u32
        } else if s == 28 {
            8u32
        } else if s == 60 {
            16u32
        } else if s == 90 {
            32u32
        } else {
            0u32
        }));
        assert({
            &&& ((m | b) & 1 != 0 <==> (m & 1 != 0 || s == 7))
            &&& ((m | b) & 2 != 0 <==> (m & 2 != 0 || s == 14))
            &&& ((m | b) & 4 != 0 <==> (m & 4 != 0 || s == 21))
            &&& ((m | b) & 8 != 0 <==> (m & 8 != 0 || s == 28))
            &&& ((m | b) & 16 != 0 <==> (m & 16 != 0 || s == 60))
            &&& ((m | b) & 32 != 0 <==> (m & 32 != 0 || s == 90))
        }) by (bit_vector)
            requires
                b == (if s == 7 {
                    1u32
                } else if s == 14 {
                    2u32
                } else if s == 21 {
                    4u32
                } else if s == 28 {
                    8u32
                } else if s == 60 {
                    16u32
                } else if s == 90 {
                    32u32
                } else {
                    0u32
                }),
        ;
    }
}

} // verus!
