//! Storage facade: the two tiers of the host store, mirrored as explicit
//! data.
//!
//! The aggregate tier holds the contract-wide counters; all its keys share
//! one expiration horizon. The per-principal tier holds one record per
//! principal, each with an independent horizon. The tiers are two distinct
//! capability sets over the same key/value idea, selected by which struct a
//! caller holds — not one generic entity. Durability itself belongs to the
//! host; these structs carry the state a call works on.

use vstd::prelude::*;
use vstd::hash_map::HashMapWithView;
use crate::record::{Principal, VoterRecord};
use crate::ttl;

verus! {

broadcast use vstd::std_specs::hash::group_hash_axioms;

/// Names of the shared counters in the aggregate tier.
#[derive(Clone, Copy, Debug, PartialEq, Eq, Structural)]
pub enum AggregateKey {
    YesVotes,
    NoVotes,
    TotalVotes,
}

/// The aggregate tier: three optional counters under one shared horizon.
/// A counter that was never written reads as absent.
pub struct AggregateTier {
    pub yes: Option<u64>,
    pub no: Option<u64>,
    pub total: Option<u64>,
    pub live_until: u32,
}

impl AggregateTier {
    /// The value stored under `key`, if any.
    pub open spec fn entry(self, key: AggregateKey) -> Option<u64> {
        match key {
            AggregateKey::YesVotes => self.yes,
            AggregateKey::NoVotes => self.no,
            AggregateKey::TotalVotes => self.total,
        }
    }

    /// The tier's shared expiration horizon.
    pub open spec fn spec_live_until(self) -> u32 {
        self.live_until
    }

    /// An empty tier: no counters written, horizon already passed.
    pub fn new() -> (t: AggregateTier)
        ensures
            forall|k: AggregateKey| t.entry(k) is None,
            t.spec_live_until() == 0,
    {
        AggregateTier { yes: None, no: None, total: None, live_until: 0 }
    }

    /// Reads the counter under `key`.
    pub fn get(&self, key: AggregateKey) -> (r: Option<u64>)
        ensures
            r == self.entry(key),
    {
        match key {
            AggregateKey::YesVotes => self.yes,
            AggregateKey::NoVotes => self.no,
            AggregateKey::TotalVotes => self.total,
        }
    }

    /// Writes the counter under `key`; the other keys and the shared
    /// horizon are untouched.
    pub fn set(&mut self, key: AggregateKey, value: u64)
        ensures
            final(self).entry(key) == Some(value),
            forall|k: AggregateKey| k != key ==> final(self).entry(k) == old(self).entry(k),
            final(self).spec_live_until() == old(self).spec_live_until(),
    {
        match key {
            AggregateKey::YesVotes => {
                self.yes = Some(value);
            }
            AggregateKey::NoVotes => {
                self.no = Some(value);
            }
            AggregateKey::TotalVotes => {
                self.total = Some(value);
            }
        }
    }

    /// Whether a counter was ever written under `key`.
    pub fn has(&self, key: AggregateKey) -> (r: bool)
        ensures
            r == (self.entry(key) is Some),
    {
        match key {
            AggregateKey::YesVotes => self.yes.is_some(),
            AggregateKey::NoVotes => self.no.is_some(),
            AggregateKey::TotalVotes => self.total.is_some(),
        }
    }

    /// Deletes the counter under `key`; the other keys and the shared
    /// horizon are untouched.
    pub fn remove(&mut self, key: AggregateKey)
        ensures
            final(self).entry(key) is None,
            forall|k: AggregateKey| k != key ==> final(self).entry(k) == old(self).entry(k),
            final(self).spec_live_until() == old(self).spec_live_until(),
    {
        match key {
            AggregateKey::YesVotes => {
                self.yes = None;
            }
            AggregateKey::NoVotes => {
                self.no = None;
            }
            AggregateKey::TotalVotes => {
                self.total = None;
            }
        }
    }

    /// Runs the lifetime policy on the tier's shared horizon; no counter
    /// changes.
    pub fn extend_lifetime(&mut self, now: u32, threshold: u32, target: u32)
        ensures
            final(self).spec_live_until() == ttl::extended_horizon(
                old(self).spec_live_until(),
                now,
                threshold,
                target,
            ),
            forall|k: AggregateKey| final(self).entry(k) == old(self).entry(k),
    {
        self.live_until = ttl::extend_horizon(self.live_until, now, threshold, target);
    }

    /// Reads the tier's shared expiration horizon.
    pub fn lifetime(&self) -> (r: u32)
        ensures
            r == self.spec_live_until(),
    {
        self.live_until
    }
}

/// One entry of the per-principal tier: the record and its own horizon.
#[derive(Clone, Copy, Debug, PartialEq, Eq, Structural)]
pub struct StoredRecord {
    pub record: VoterRecord,
    pub live_until: u32,
}

/// The per-principal tier, keyed by the principal's identity.
pub struct PrincipalTier {
    pub entries: HashMapWithView<u64, StoredRecord>,
}

impl View for PrincipalTier {
    type V = Map<u64, StoredRecord>;

    open spec fn view(&self) -> Map<u64, StoredRecord> {
        self.entries@
    }
}

impl PrincipalTier {
    /// An empty tier.
    pub fn new() -> (t: PrincipalTier)
        ensures
            t@ == Map::<u64, StoredRecord>::empty(),
    {
        PrincipalTier { entries: HashMapWithView::new() }
    }

    /// Reads the record stored for `key`, without its expiration metadata.
    pub fn get(&self, key: Principal) -> (r: Option<VoterRecord>)
        ensures
            r == if self@.contains_key(key.id) {
                Some(self@[key.id].record)
            } else {
                None::<VoterRecord>
            },
    {
        match self.entries.get(&key.id) {
            Some(stored) => Some(stored.record),
            None => None,
        }
    }

    /// Writes a record for `key`. A fresh entry's horizon starts at the
    /// current ledger — already due — and is expected to be extended by the
    /// lifetime policy right after the write.
    pub fn set(&mut self, key: Principal, value: VoterRecord, now: u32)
        ensures
            final(self)@ == old(self)@.insert(
                key.id,
                (StoredRecord { record: value, live_until: now }),
            ),
    {
        self.entries.insert(key.id, StoredRecord { record: value, live_until: now });
    }

    /// Whether a record exists for `key`.
    pub fn has(&self, key: Principal) -> (r: bool)
        ensures
            r == self@.contains_key(key.id),
    {
        self.entries.contains_key(&key.id)
    }

    /// Deletes the record for `key`, returning it if it existed.
    pub fn remove(&mut self, key: Principal) -> (r: Option<VoterRecord>)
        ensures
            r == if old(self)@.contains_key(key.id) {
                Some(old(self)@[key.id].record)
            } else {
                None::<VoterRecord>
            },
            final(self)@ == old(self)@.remove(key.id),
    {
        match self.entries.remove(&key.id) {
            Some(stored) => Some(stored.record),
            None => None,
        }
    }

    /// Runs the lifetime policy on the horizon of `key`'s record. A key with
    /// no record is permitted and nothing happens: the write that follows
    /// will establish one.
    pub fn extend_lifetime(&mut self, key: Principal, now: u32, threshold: u32, target: u32) -> (found: bool)
        ensures
            found == old(self)@.contains_key(key.id),
            found ==> final(self)@ == old(self)@.insert(
                key.id,
                (StoredRecord {
                    record: old(self)@[key.id].record,
                    live_until: ttl::extended_horizon(
                        old(self)@[key.id].live_until,
                        now,
                        threshold,
                        target,
                    ),
                }),
            ),
            !found ==> *final(self) == *old(self),
    {
        let stored: Option<StoredRecord> = match self.entries.get(&key.id) {
            Some(s) => Some(*s),
            None => None,
        };
        match stored {
            Some(s) => {
                let extended: u32 = ttl::extend_horizon(s.live_until, now, threshold, target);
                self.entries.insert(key.id, StoredRecord { record: s.record, live_until: extended });
                true
            }
            None => false,
        }
    }

    /// Reads the expiration horizon of `key`'s record, if one exists.
    pub fn lifetime_of(&self, key: Principal) -> (r: Option<u32>)
        ensures
            r == if self@.contains_key(key.id) {
                Some(self@[key.id].live_until)
            } else {
                None::<u32>
            },
    {
        match self.entries.get(&key.id) {
            Some(stored) => Some(stored.live_until),
            None => None,
        }
    }
}

} // verus!
