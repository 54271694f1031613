use prayer_registry::identity::Hash256;
use prayer_registry::identity::Identity;
use prayer_registry::record::RegistryError;
use prayer_registry::record::UserSnapshot;
use prayer_registry::registry::PrayerRegistry;
use prayer_registry::rules::apply_check_in;

fn addr(byte: u8) -> Identity {
    Identity {
        hi: u32::from_be_bytes([byte; 4]),
        lo: u128::from_be_bytes([byte; 16]),
    }
}

fn hash(value: u64) -> Hash256 {
    Hash256 { hi: 0, lo: value as u128 }
}

fn do_check_in(
    registry: &mut PrayerRegistry,
    caller: Identity,
    now: u64,
    prayer_hash: Hash256,
    score: u16,
    label: u8,
) -> UserSnapshot {
    let pending = registry
        .check_in_prepare(caller, now, prayer_hash, score, label)
        .unwrap();
    registry.check_in_resolve(pending, true).unwrap()
}

#[test]
fn first_check_in_initializes_state() {
    let owner = addr(0x11);
    let mirror = addr(0x22);
    let mut registry = PrayerRegistry::constructor(owner, mirror);

    let snapshot = do_check_in(&mut registry, owner, 1_700_000_000, hash(1), 72, 3);

    assert_eq!(snapshot.streak, 1);
    assert_eq!(snapshot.total, 1);
    assert_eq!(snapshot.longest, 1);
    assert_eq!(snapshot.milestones, 0);
    assert_eq!(snapshot.score, 72);
    assert_eq!(snapshot.label, 3);

    let stored = registry.get_user(owner);
    assert_eq!(stored.streak, 1);
    assert_eq!(stored.total, 1);
    assert_eq!(stored.last_check_in, 1_700_000_000);
}

#[test]
fn second_day_increments_streak() {
    let user = addr(0xAA);
    let mirror = addr(0xBB);
    let mut registry = PrayerRegistry::constructor(user, mirror);

    do_check_in(&mut registry, user, 1_700_000_000, hash(42), 10, 1);

    let snapshot = do_check_in(&mut registry, user, 1_700_000_000 + 86400 + 10, hash(77), 8, 2);
    assert_eq!(snapshot.streak, 2);
    assert_eq!(snapshot.total, 2);
    assert_eq!(snapshot.longest, 2);
    assert_eq!(snapshot.milestones, 0);
}

#[test]
#[should_panic]
fn double_check_in_same_day_reverts() {
    let user = addr(0x12);
    let mirror = addr(0x34);
    let mut registry = PrayerRegistry::constructor(user, mirror);

    do_check_in(&mut registry, user, 1_700_000_000, hash(1), 20, 2);
    do_check_in(&mut registry, user, 1_700_000_000 + 86400 - 60, hash(2), 21, 3);
}

#[test]
fn grace_window_boundary_increments_streak() {
    let user = addr(0x01);
    let mut registry = PrayerRegistry::constructor(user, addr(0x02));

    do_check_in(&mut registry, user, 1_700_000_000, hash(1), 72, 3);
    let snapshot = do_check_in(&mut registry, user, 1_700_086_410, hash(77), 8, 2);

    assert_eq!(snapshot.streak, 2);
    assert_eq!(snapshot.longest, 2);
    assert_eq!(snapshot.total, 2);
    assert_eq!(snapshot.milestones, 0);
}

#[test]
fn missed_day_resets_streak() {
    let user = addr(0x01);
    let mut registry = PrayerRegistry::constructor(user, addr(0x02));

    do_check_in(&mut registry, user, 1_700_000_000, hash(1), 72, 3);
    let snapshot = do_check_in(&mut registry, user, 1_700_259_200, hash(2), 5, 1);

    assert_eq!(snapshot.streak, 1);
    assert_eq!(snapshot.longest, 1);
    assert_eq!(snapshot.total, 2);
}

#[test]
fn early_check_in_rejected_and_state_unchanged() {
    let user = addr(0x01);
    let mut registry = PrayerRegistry::constructor(user, addr(0x02));

    do_check_in(&mut registry, user, 1_700_000_000, hash(1), 72, 3);
    let before = registry.get_user(user);

    let outcome = registry.check_in_prepare(user, 1_700_086_000, hash(2), 5, 1);
    assert_eq!(outcome.unwrap_err(), RegistryError::CadenceViolation);

    let after = registry.get_user(user);
    assert_eq!(after, before);
}

#[test]
fn oversized_score_rejected() {
    let user = addr(0x01);
    let mut registry = PrayerRegistry::constructor(user, addr(0x02));

    let outcome = registry.check_in_prepare(user, 1_700_000_000, hash(1), 10_001, 0);
    assert_eq!(outcome.unwrap_err(), RegistryError::InvalidInput);
    assert_eq!(registry.get_user(user), UserSnapshot::zeroed());
}

#[test]
fn score_at_bound_accepted() {
    let user = addr(0x01);
    let mut registry = PrayerRegistry::constructor(user, addr(0x02));

    let snapshot = do_check_in(&mut registry, user, 1_700_000_000, hash(1), 10_000, 0);
    assert_eq!(snapshot.score, 10_000);
}

#[test]
fn unset_mirror_rejects_check_in() {
    let user = addr(0x01);
    let mut registry = PrayerRegistry::constructor(user, Identity::zero());

    let outcome = registry.check_in_prepare(user, 1_700_000_000, hash(1), 72, 3);
    assert_eq!(outcome.unwrap_err(), RegistryError::MirrorUnset);
}

#[test]
fn failed_mirror_sync_discards_check_in() {
    let user = addr(0x01);
    let mut registry = PrayerRegistry::constructor(user, addr(0x02));

    let pending = registry
        .check_in_prepare(user, 1_700_000_000, hash(1), 72, 3)
        .unwrap();
    let outcome = registry.check_in_resolve(pending, false);
    assert_eq!(outcome.unwrap_err(), RegistryError::MirrorSyncFailed);

    assert_eq!(registry.get_user(user), UserSnapshot::zeroed());
    assert_eq!(registry.next_allowed_at(user), 0);
}

#[test]
fn milestone_bit_set_on_seventh_day_and_sticky_across_reset() {
    let user = addr(0x01);
    let mut registry = PrayerRegistry::constructor(user, addr(0x02));

    let start: u64 = 1_700_000_000;
    let mut snapshot = do_check_in(&mut registry, user, start, hash(1), 1, 0);
    for day in 1..7u64 {
        snapshot = do_check_in(&mut registry, user, start + day * 86400, hash(day), 1, 0);
    }
    assert_eq!(snapshot.streak, 7);
    assert_eq!(snapshot.milestones, 1);

    // Three days of silence: the streak resets, the milestone bit stays.
    let resumed = do_check_in(&mut registry, user, start + 9 * 86400, hash(9), 1, 0);
    assert_eq!(resumed.streak, 1);
    assert_eq!(resumed.longest, 7);
    assert_eq!(resumed.total, 8);
    assert_eq!(resumed.milestones, 1);
}

#[test]
fn streak_between_milestones_earns_no_bit() {
    let user = addr(0x01);
    let mut registry = PrayerRegistry::constructor(user, addr(0x02));

    let start: u64 = 1_700_000_000;
    let mut snapshot = do_check_in(&mut registry, user, start, hash(0), 1, 0);
    for day in 1..9u64 {
        snapshot = do_check_in(&mut registry, user, start + day * 86400, hash(day), 1, 0);
    }
    assert_eq!(snapshot.streak, 9);
    assert_eq!(snapshot.milestones, 1);
}

#[test]
fn streak_overflow_reported() {
    let prev = UserSnapshot {
        streak: u32::MAX,
        longest: u32::MAX,
        total: 1000,
        milestones: 0,
        last_check_in: 1_700_000_000,
        score: 0,
        label: 0,
        prayer_hash: Hash256 { hi: 0, lo: 0 },
    };
    let outcome = apply_check_in(&prev, 1_700_000_000 + 86400, hash(1), 1, 0);
    assert_eq!(outcome.unwrap_err(), RegistryError::ArithmeticOverflow);
}

#[test]
fn total_overflow_reported() {
    let prev = UserSnapshot {
        streak: 3,
        longest: 3,
        total: u32::MAX,
        milestones: 0,
        last_check_in: 1_700_000_000,
        score: 0,
        label: 0,
        prayer_hash: Hash256 { hi: 0, lo: 0 },
    };
    let outcome = apply_check_in(&prev, 1_700_000_000 + 3 * 86400, hash(1), 1, 0);
    assert_eq!(outcome.unwrap_err(), RegistryError::ArithmeticOverflow);
}

#[test]
fn non_owner_cannot_set_mirror() {
    let owner = addr(0x11);
    let stranger = addr(0x99);
    let mut registry = PrayerRegistry::constructor(owner, addr(0x22));

    let outcome = registry.set_mirror(stranger, addr(0x33));
    assert_eq!(outcome.unwrap_err(), RegistryError::Unauthorized);
    assert_eq!(registry.mirror(), addr(0x22));
}

#[test]
fn owner_sets_mirror() {
    let owner = addr(0x11);
    let mut registry = PrayerRegistry::constructor(owner, addr(0x22));

    registry.set_mirror(owner, addr(0x33)).unwrap();
    assert_eq!(registry.mirror(), addr(0x33));
    assert_eq!(registry.owner(), owner);
}

#[test]
fn next_allowed_at_follows_last_check_in() {
    let user = addr(0x01);
    let mut registry = PrayerRegistry::constructor(user, addr(0x02));

    assert_eq!(registry.next_allowed_at(user), 0);
    do_check_in(&mut registry, user, 1_700_000_000, hash(1), 72, 3);
    assert_eq!(registry.next_allowed_at(user), 1_700_086_400);
}

#[test]
fn records_of_other_identities_untouched() {
    let alice = addr(0x0A);
    let bob = addr(0x0B);
    let mut registry = PrayerRegistry::constructor(alice, addr(0x02));

    do_check_in(&mut registry, alice, 1_700_000_000, hash(1), 3, 0);
    do_check_in(&mut registry, bob, 1_700_000_500, hash(2), 4, 0);
    let alice_again = do_check_in(&mut registry, alice, 1_700_000_000 + 86400, hash(3), 5, 0);

    assert_eq!(alice_again.streak, 2);
    let bob_stored = registry.get_user(bob);
    assert_eq!(bob_stored.streak, 1);
    assert_eq!(bob_stored.total, 1);
    assert_eq!(bob_stored.last_check_in, 1_700_000_500);
}

#[test]
fn snapshot_carries_hash_and_pending_carries_target() {
    let user = addr(0x01);
    let mirror = addr(0x02);
    let mut registry = PrayerRegistry::constructor(user, mirror);

    let event = Hash256 { hi: 0xDEAD, lo: 0xBEEF };
    let pending = registry
        .check_in_prepare(user, 1_700_000_000, event, 72, 3)
        .unwrap();
    assert_eq!(pending.user(), user);
    assert_eq!(pending.target(), mirror);
    assert_eq!(pending.snapshot().prayer_hash, event);

    // The staged notification payload is ready to send.
    let payload = pending.payload();
    assert_eq!(payload.len(), 228);
    assert_eq!(&payload[0..4], &[0x3f, 0x10, 0x4d, 0xad]);

    let snapshot = registry.check_in_resolve(pending, true).unwrap();
    assert_eq!(snapshot.prayer_hash, event);
    assert_eq!(registry.get_user(user).prayer_hash, event);
}
