//! The registry facade: per-identity records, the authorization guard on
//! the mirror setter, and the staged commit of a check-in.
//!
//! A check-in runs in two steps. [`PrayerRegistry::check_in_prepare`]
//! validates the request against the stored record, computes the new
//! record and the mirror notification payload, and touches nothing.
//! The caller then delivers the payload to the mirror endpoint and hands
//! the outcome to [`PrayerRegistry::check_in_resolve`], which commits the
//! new record on success and discards it whole on failure. No observer
//! ever sees a record whose mirror notification did not succeed.

use vstd::prelude::*;
use crate::codec;
use crate::identity::Hash256;
use crate::identity::Identity;
use crate::record::RegistryError;
use crate::record::UserSnapshot;
use crate::rules;

verus! {

/// One stored record, keyed by its identity.
#[derive(Clone, Copy)]
struct UserEntry {
    id: Identity,
    record: UserSnapshot,
}

/// The record that `entries` holds for `id`: the first entry with that
/// identity, or the all-zero record when none exists.
spec fn view_in(entries: Seq<UserEntry>, id: Identity) -> UserSnapshot
    decreases entries.len(),
{
    if entries.len() == 0 {
        UserSnapshot::spec_zero()
    } else if entries[0].id == id {
        entries[0].record
    } else {
        view_in(entries.drop_first(), id)
    }
}

/// The first entry of `entries` with identity `id` carries the record
/// that `view_in` reads.
proof fn lemma_view_first_occurrence(entries: Seq<UserEntry>, i: int)
    requires
        0 <= i < entries.len(),
        forall|j: int| 0 <= j < i ==> entries[j].id != entries[i].id,
    ensures
        view_in(entries, entries[i].id) == entries[i].record,
    decreases i,
{
    if i > 0 {
        assert(entries.drop_first()[i - 1] == entries[i]);
        lemma_view_first_occurrence(entries.drop_first(), i - 1);
    }
}

/// An identity with no entry reads as the all-zero record.
proof fn lemma_view_absent(entries: Seq<UserEntry>, id: Identity)
    requires
        forall|j: int| 0 <= j < entries.len() ==> entries[j].id != id,
    ensures
        view_in(entries, id) == UserSnapshot::spec_zero(),
    decreases entries.len(),
{
    if entries.len() > 0 {
        lemma_view_absent(entries.drop_first(), id);
    }
}

/// Replacing the first entry of an identity changes that identity's view
/// to the new record and no other identity's view at all.
proof fn lemma_view_update_first(entries: Seq<UserEntry>, i: int, e: UserEntry)
    requires
        0 <= i < entries.len(),
        entries[i].id == e.id,
        forall|j: int| 0 <= j < i ==> entries[j].id != e.id,
    ensures
        view_in(entries.update(i, e), e.id) == e.record,
        forall|x: Identity| x != e.id ==> view_in(entries.update(i, e), x) == view_in(entries, x),
    decreases i,
{
    if i == 0 {
        assert(entries.update(0, e)[0] == e);
        assert(entries.update(0, e).drop_first() =~= entries.drop_first());
        assert forall|x: Identity| x != e.id implies view_in(entries.update(0, e), x) == view_in(
            entries,
            x,
        ) by {
            assert(view_in(entries.update(0, e), x) == view_in(entries.drop_first(), x));
            assert(view_in(entries, x) == view_in(entries.drop_first(), x));
        }
    } else {
        assert(entries.update(i, e)[0] == entries[0]);
        assert(entries.update(i, e).drop_first() =~= entries.drop_first().update(i - 1, e));
        assert(entries.drop_first()[i - 1] == entries[i]);
        lemma_view_update_first(entries.drop_first(), i - 1, e);
        assert(view_in(entries.update(i, e), e.id) == view_in(
            entries.drop_first().update(i - 1, e),
            e.id,
        ));
        assert forall|x: Identity| x != e.id implies view_in(entries.update(i, e), x) == view_in(
            entries,
            x,
        ) by {
            if entries[0].id == x {
                assert(view_in(entries.update(i, e), x) == entries[0].record);
            } else {
                assert(view_in(entries.update(i, e), x) == view_in(
                    entries.drop_first().update(i - 1, e),
                    x,
                ));
                assert(view_in(entries, x) == view_in(entries.drop_first(), x));
            }
        }
    }
}

/// Appending an entry for an identity that has none changes that
/// identity's view to the new record and no other identity's view at all.
proof fn lemma_view_push_absent(entries: Seq<UserEntry>, e: UserEntry)
    requires
        forall|j: int| 0 <= j < entries.len() ==> entries[j].id != e.id,
    ensures
        view_in(entries.push(e), e.id) == e.record,
        forall|x: Identity| x != e.id ==> view_in(entries.push(e), x) == view_in(entries, x),
    decreases entries.len(),
{
    if entries.len() == 0 {
        assert(entries.push(e).drop_first() =~= Seq::<UserEntry>::empty());
        assert forall|x: Identity| x != e.id implies view_in(entries.push(e), x) == view_in(
            entries,
            x,
        ) by {
            assert(view_in(entries.push(e), x) == view_in(Seq::<UserEntry>::empty(), x));
        }
    } else {
        assert(entries.push(e)[0] == entries[0]);
        assert(entries.push(e).drop_first() =~= entries.drop_first().push(e));
        lemma_view_push_absent(entries.drop_first(), e);
        assert(view_in(entries.push(e), e.id) == view_in(entries.drop_first().push(e), e.id));
        assert forall|x: Identity| x != e.id implies view_in(entries.push(e), x) == view_in(
            entries,
            x,
        ) by {
            if entries[0].id == x {
                assert(view_in(entries.push(e), x) == entries[0].record);
            } else {
                assert(view_in(entries.push(e), x) == view_in(entries.drop_first().push(e), x));
                assert(view_in(entries, x) == view_in(entries.drop_first(), x));
            }
        }
    }
}

/// A check-in that passed validation but is not committed yet: the
/// identity it belongs to, the record to store, the endpoint to notify
/// and the encoded notification. Dropping it abandons the check-in
/// without a trace.
#[derive(Debug)]
pub struct PendingCheckIn {
    user: Identity,
    target: Identity,
    record: UserSnapshot,
    payload: Vec<u8>,
}

impl PendingCheckIn {
    /// The identity whose check-in this is.
    pub closed spec fn user_id(self) -> Identity {
        self.user
    }

    /// The mirror endpoint to notify.
    pub closed spec fn target_id(self) -> Identity {
        self.target
    }

    /// The record that a commit will store.
    pub closed spec fn new_record(self) -> UserSnapshot {
        self.record
    }

    /// The bytes of the mirror notification.
    pub closed spec fn payload_view(self) -> Seq<u8> {
        self.payload@
    }

    pub fn user(&self) -> (r: Identity)
        ensures
            r == self.user_id(),
    {
        self.user
    }

    pub fn target(&self) -> (r: Identity)
        ensures
            r == self.target_id(),
    {
        self.target
    }

    /// The record a commit will store, also the snapshot the operation
    /// returns.
    pub fn snapshot(&self) -> (r: UserSnapshot)
        ensures
            r == self.new_record(),
    {
        self.record
    }

    pub fn payload(&self) -> (r: &Vec<u8>)
        ensures
            r@ == self.payload_view(),
    {
        &self.payload
    }
}

/// The check-in ledger: an owner with the exclusive right to change the
/// mirror endpoint, the mirror endpoint itself, and one record per
/// identity. An identity without a record reads as the all-zero record.
pub struct PrayerRegistry {
    owner: Identity,
    mirror: Identity,
    users: Vec<UserEntry>,
}

impl PrayerRegistry {
    /// The identity with the exclusive right to change the mirror.
    pub closed spec fn owner_id(self) -> Identity {
        self.owner
    }

    /// The endpoint notified of every accepted check-in.
    pub closed spec fn mirror_id(self) -> Identity {
        self.mirror
    }

    /// The record stored for `id`, the all-zero record when none is.
    pub closed spec fn user_view(self, id: Identity) -> UserSnapshot {
        view_in(self.users@, id)
    }

    /// Creates the registry with its owner and initial mirror, and no
    /// history for any identity. The owner never changes afterwards.
    pub fn constructor(owner: Identity, mirror: Identity) -> (r: PrayerRegistry)
        ensures
            r.owner_id() == owner,
            r.mirror_id() == mirror,
            forall|u: Identity| r.user_view(u) == UserSnapshot::spec_zero(),
    {
        PrayerRegistry { owner, mirror, users: Vec::new() }
    }

    pub fn owner(&self) -> (r: Identity)
        ensures
            r == self.owner_id(),
    {
        self.owner
    }

    pub fn mirror(&self) -> (r: Identity)
        ensures
            r == self.mirror_id(),
    {
        self.mirror
    }

    /// Changes the mirror endpoint. Only the owner may: any other caller
    /// gets `Unauthorized` and nothing changes.
    pub fn set_mirror(&mut self, caller: Identity, new_mirror: Identity) -> (r: Result<
        (),
        RegistryError,
    >)
        ensures
            caller == old(self).owner_id() ==> {
                &&& r is Ok
                &&& final(self).owner_id() == old(self).owner_id()
                &&& final(self).mirror_id() == new_mirror
                &&& forall|u: Identity| final(self).user_view(u) == old(self).user_view(u)
            },
            caller != old(self).owner_id() ==> {
                &&& r == Err::<(), RegistryError>(RegistryError::Unauthorized)
                &&& *final(self) == *old(self)
            },
    {
        if caller == self.owner {
            self.mirror = new_mirror;
            Ok(())
        } else {
            Err(RegistryError::Unauthorized)
        }
    }

    /// The index of the first entry for `id`, if one exists.
    fn find_user(&self, id: Identity) -> (r: Option<usize>)
        ensures
            match r {
                Some(i) => {
                    &&& i < self.users@.len()
                    &&& self.users@[i as int].id == id
                    &&& forall|j: int| 0 <= j < i ==> self.users@[j].id != id
                },
                None => forall|j: int| 0 <= j < self.users@.len() ==> self.users@[j].id != id,
            },
    {
        let n = self.users.len();
        let mut i: usize = 0;
        while i < n
            invariant
                i <= n,
                n == self.users@.len(),
                forall|j: int| 0 <= j < i ==> self.users@[j].id != id,
            decreases n - i,
        {
            if self.users[i].id == id {
                return Some(i);
            }
            i = i + 1;
        }
        None
    }

    /// The stored snapshot of `id`, the all-zero record for an identity
    /// that never checked in. Reads are side-effect-free and never fail.
    pub fn get_user(&self, user: Identity) -> (r: UserSnapshot)
        ensures
            r == self.user_view(user),
    {
        match self.find_user(user) {
            Some(i) => {
                proof {
                    lemma_view_first_occurrence(self.users@, i as int);
                }
                self.users[i].record
            },
            None => {
                proof {
                    lemma_view_absent(self.users@, user);
                }
                UserSnapshot::zeroed()
            },
        }
    }

    /// The earliest time at which `user` may check in again: 0 for an
    /// identity that never checked in, otherwise a day after the last
    /// accepted check-in, capped at the largest timestamp.
    pub fn next_allowed_at(&self, user: Identity) -> (r: u64)
        ensures
            ({
                let last = self.user_view(user).last_check_in;
                if last == 0 {
                    r == 0
                } else if last + rules::DAY_SECONDS <= u64::MAX {
                    r == last + rules::DAY_SECONDS
                } else {
                    r == u64::MAX
                }
            }),
    {
        let last = self.get_user(user).last_check_in;
        if last == 0 {
            0
        } else if last <= u64::MAX - rules::DAY_SECONDS {
            last + rules::DAY_SECONDS
        } else {
            u64::MAX
        }
    }

    /// Stores `record` as the one record of `id`, leaving every other
    /// identity's record alone.
    fn store_user(&mut self, id: Identity, record: UserSnapshot)
        ensures
            final(self).owner_id() == old(self).owner_id(),
            final(self).mirror_id() == old(self).mirror_id(),
            final(self).user_view(id) == record,
            forall|u: Identity| u != id ==> final(self).user_view(u) == old(self).user_view(u),
    {
        let entry = UserEntry { id, record };
        let ghost pre = self.users@;
        match self.find_user(id) {
            Some(i) => {
                self.users[i] = entry;
                proof {
                    lemma_view_update_first(pre, i as int, entry);
                    assert(self.users@ =~= pre.update(i as int, entry));
                }
            },
            None => {
                self.users.push(entry);
                proof {
                    lemma_view_push_absent(pre, entry);
                    assert(self.users@ =~= pre.push(entry));
                }
            },
        }
    }

    /// Validates a check-in and computes everything an acceptance will
    /// store and send, touching no state.
    ///
    /// The outcome follows [`rules::check_in_result`] on the caller's
    /// stored record exactly; a request the rule accepts is still refused
    /// with `MirrorUnset` while no mirror endpoint is configured. On
    /// success the returned stage carries the new record and the
    /// notification payload of [`codec::sync_payload`].
    pub fn check_in_prepare(
        &self,
        caller: Identity,
        now: u64,
        prayer_hash: Hash256,
        score: u16,
        label: u8,
    ) -> (r: Result<PendingCheckIn, RegistryError>)
        ensures
            ({
                let outcome = rules::check_in_result(
                    self.user_view(caller),
                    now,
                    prayer_hash,
                    score,
                    label,
                );
                match r {
                    Ok(p) => {
                        &&& outcome == Ok::<UserSnapshot, RegistryError>(p.new_record())
                        &&& !self.mirror_id().is_zero()
                        &&& p.user_id() == caller
                        &&& p.target_id() == self.mirror_id()
                        &&& p.payload_view() == codec::sync_payload(
                            caller,
                            p.new_record().streak,
                            p.new_record().longest,
                            p.new_record().total,
                            p.new_record().milestones,
                            p.new_record().score,
                            prayer_hash,
                        )
                    },
                    Err(e) => match outcome {
                        Err(e2) => e == e2,
                        Ok(_) => self.mirror_id().is_zero() && e == RegistryError::MirrorUnset,
                    },
                }
            }),
    {
        let prev = self.get_user(caller);
        match rules::apply_check_in(&prev, now, prayer_hash, score, label) {
            Err(e) => Err(e),
            Ok(record) => {
                if self.mirror.is_unset() {
                    Err(RegistryError::MirrorUnset)
                } else {
                    let payload = codec::encode_sync_payload(
                        caller,
                        record.streak,
                        record.longest,
                        record.total,
                        record.milestones,
                        record.score,
                        prayer_hash,
                    );
                    Ok(PendingCheckIn { user: caller, target: self.mirror, record, payload })
                }
            },
        }
    }

    /// Settles a staged check-in once the mirror notification has been
    /// attempted. A delivered notification commits the staged record and
    /// returns the snapshot; a failed one discards the whole check-in,
    /// leaves every record as it was and returns `MirrorSyncFailed`.
    pub fn check_in_resolve(&mut self, pending: PendingCheckIn, delivered: bool) -> (r: Result<
        UserSnapshot,
        RegistryError,
    >)
        ensures
            !delivered ==> {
                &&& *final(self) == *old(self)
                &&& r == Err::<UserSnapshot, RegistryError>(RegistryError::MirrorSyncFailed)
            },
            delivered ==> {
                &&& r == Ok::<UserSnapshot, RegistryError>(pending.new_record())
                &&& final(self).owner_id() == old(self).owner_id()
                &&& final(self).mirror_id() == old(self).mirror_id()
                &&& final(self).user_view(pending.user_id()) == pending.new_record()
                &&& forall|u: Identity|
                    u != pending.user_id() ==> final(self).user_view(u) == old(self).user_view(u)
            },
    {
        if delivered {
            self.store_user(pending.user, pending.record);
            Ok(pending.record)
        } else {
            Err(RegistryError::MirrorSyncFailed)
        }
    }
}

} // verus!
