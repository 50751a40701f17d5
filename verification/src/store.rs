//! The inheritance record store: a keyed collection of records addressable
//! by owner identity, plus a counter of all setup calls ever made.
//!
//! Each operation takes the authenticated `caller` identity and, where the
//! decision needs it, the host clock's `current_time`, and runs to completion
//! as one atomic step: a rejected call leaves the store exactly as it was.

use std::collections::HashMap;
use vstd::prelude::*;

use crate::records::{new_record, stored_record, Inheritance, InheritanceError};

verus! {

broadcast use vstd::std_specs::hash::group_hash_axioms;

/// The decision a setup call reaches, from the identities, the requested
/// deadline and the current ledger time alone: the caller must be the owner,
/// and the deadline must be strictly in the future.
pub open spec fn setup_outcome(caller: u64, owner: u64, deadline: u64, now: u64) -> Result<
    (),
    InheritanceError,
> {
    if caller != owner {
        Err(InheritanceError::AuthorizationError)
    } else if deadline <= now {
        Err(InheritanceError::InvalidDeadlineError)
    } else {
        Ok(())
    }
}

/// The decision a claim call reaches, checked in this order: the caller must
/// be the `heir` argument, the stored record's heir must equal that argument,
/// the record must not be claimed yet, and the deadline must have passed.
/// An owner that never set anything up is read as the sentinel record.
pub open spec fn claim_outcome(
    records: Map<u64, Inheritance>,
    caller: u64,
    owner: u64,
    heir: u64,
    now: u64,
) -> Result<(), InheritanceError> {
    let record = stored_record(records, owner);
    if caller != heir {
        Err(InheritanceError::AuthorizationError)
    } else if record.heir != heir {
        Err(InheritanceError::UnauthorizedHeirError)
    } else if record.is_claimed {
        Err(InheritanceError::AlreadyClaimedError)
    } else if now < record.deadline {
        Err(InheritanceError::DeadlineNotReachedError)
    } else {
        Ok(())
    }
}

/// The record a successful claim writes back: the stored record with
/// `is_claimed` set and every other field unchanged.
pub open spec fn claimed_record(records: Map<u64, Inheritance>, owner: u64) -> Inheritance {
    let record = stored_record(records, owner);
    Inheritance {
        owner: record.owner,
        heir: record.heir,
        asset_amount: record.asset_amount,
        deadline: record.deadline,
        is_claimed: true,
    }
}

/// The inheritance record store: one record slot per owner identity and a
/// counter of every setup call ever executed (never decremented, not
/// deduplicated per owner).
pub struct InheritanceContract {
    records: HashMap<u64, Inheritance>,
    total: u64,
}

impl InheritanceContract {
    /// The records by owner identity, as a mathematical map.
    pub closed spec fn records(self) -> Map<u64, Inheritance> {
        self.records@
    }

    /// How many setup calls ever succeeded.
    pub closed spec fn total_setups(self) -> u64 {
        self.total
    }

    /// Every stored record sits in the slot of its own owner identity.
    pub open spec fn wf(self) -> bool {
        forall|o: u64|
            self.records().contains_key(o) ==> (#[trigger] self.records()[o]).owner == o
    }

    /// An empty store: no records, counter at zero.
    pub fn new() -> (store: Self)
        ensures
            store.records() == Map::<u64, Inheritance>::empty(),
            store.total_setups() == 0,
            store.wf(),
    {
        InheritanceContract { records: HashMap::new(), total: 0 }
    }

    /// Registers an inheritance: the caller, authenticated as `owner`, names
    /// an heir, an asset amount and a deadline strictly in the future. The
    /// new record overwrites any existing record for that owner (last write
    /// wins, no error on overwrite), and the global counter grows by one.
    /// A rejected call changes nothing.
    pub fn setup_inheritance(
        &mut self,
        caller: u64,
        owner: u64,
        heir: u64,
        asset_amount: i128,
        deadline: u64,
        current_time: u64,
    ) -> (result: Result<(), InheritanceError>)
        requires
            old(self).total_setups() < u64::MAX,
        ensures
            result == setup_outcome(caller, owner, deadline, current_time),
            result is Ok ==> final(self).records() == old(self).records().insert(
                owner,
                new_record(owner, heir, asset_amount, deadline),
            ),
            result is Ok ==> final(self).total_setups() == old(self).total_setups() + 1,
            result is Err ==> final(self).records() == old(self).records(),
            result is Err ==> final(self).total_setups() == old(self).total_setups(),
            old(self).wf() ==> final(self).wf(),
    {
        if caller != owner {
            return Err(InheritanceError::AuthorizationError);
        }
        if deadline <= current_time {
            return Err(InheritanceError::InvalidDeadlineError);
        }
        let record = Inheritance { owner, heir, asset_amount, deadline, is_claimed: false };
        self.records.insert(owner, record);
        self.total = self.total + 1;
        Ok(())
    }

    /// Claims an inheritance: the caller, authenticated as the `heir`
    /// argument, must match the heir stored in `owner`'s record, the record
    /// must not be claimed yet, and the current time must have reached the
    /// deadline. On success the record is written back with `is_claimed`
    /// set and every other field unchanged; the counter does not move.
    /// A rejected call changes nothing.
    pub fn claim_inheritance(
        &mut self,
        caller: u64,
        owner: u64,
        heir: u64,
        current_time: u64,
    ) -> (result: Result<(), InheritanceError>)
        ensures
            result == claim_outcome(old(self).records(), caller, owner, heir, current_time),
            result is Ok ==> final(self).records() == old(self).records().insert(
                owner,
                claimed_record(old(self).records(), owner),
            ),
            result is Err ==> final(self).records() == old(self).records(),
            final(self).total_setups() == old(self).total_setups(),
            old(self).wf() ==> final(self).wf(),
    {
        if caller != heir {
            return Err(InheritanceError::AuthorizationError);
        }
        let record = self.view_inheritance(owner);
        if record.heir != heir {
            return Err(InheritanceError::UnauthorizedHeirError);
        }
        if record.is_claimed {
            return Err(InheritanceError::AlreadyClaimedError);
        }
        if current_time < record.deadline {
            return Err(InheritanceError::DeadlineNotReachedError);
        }
        let claimed = Inheritance {
            owner: record.owner,
            heir: record.heir,
            asset_amount: record.asset_amount,
            deadline: record.deadline,
            is_claimed: true,
        };
        self.records.insert(owner, claimed);
        Ok(())
    }

    /// Rehydrates one record from the host's durable storage into this
    /// store, in the slot of the record's own owner identity. This models a
    /// read of the ledger, not an operation of the contract: it bypasses no
    /// check a caller could reach, since setup and claim decide from the
    /// loaded state exactly as they would from the state that produced it.
    pub fn load_record(&mut self, record: Inheritance)
        ensures
            final(self).records() == old(self).records().insert(record.owner, record),
            final(self).total_setups() == old(self).total_setups(),
            old(self).wf() ==> final(self).wf(),
    {
        self.records.insert(record.owner, record);
        proof {
            if old(self).wf() {
                assert forall|o: u64| self.records().contains_key(o) implies (#[trigger] self.records()[o]).owner
                    == o by {
                    if o != record.owner {
                        assert(old(self).records().contains_key(o));
                    }
                }
            }
        }
    }

    /// Rehydrates the global counter from the host's durable storage.
    pub fn load_total(&mut self, total: u64)
        ensures
            final(self).records() == old(self).records(),
            final(self).total_setups() == total,
            old(self).wf() ==> final(self).wf(),
    {
        self.total = total;
    }

    /// The stored record for `owner`, or the sentinel default (heir equal to
    /// the owner, zero amount, zero deadline, unclaimed) when none exists.
    /// Pure read: the sentinel is returned, never written.
    pub fn view_inheritance(&self, owner: u64) -> (record: Inheritance)
        ensures
            record == stored_record(self.records(), owner),
    {
        match self.records.get(&owner) {
            Some(record) => *record,
            None => Inheritance {
                owner,
                heir: owner,
                asset_amount: 0,
                deadline: 0,
                is_claimed: false,
            },
        }
    }

    /// Pure read of the global counter.
    pub fn get_total_inheritances(&self) -> (total: u64)
        ensures
            total == self.total_setups(),
    {
        self.total
    }
}

} // verus!
