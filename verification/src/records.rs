//! Data model: the inheritance record, the storage key variant, the error
//! taxonomy, and the spec-level record constructions the contracts speak of.

use vstd::prelude::*;

verus! {

/// One terminal failure per rejection path. Every failure aborts the whole
/// operation with no state change.
#[derive(Clone, Copy, Debug, PartialEq, Eq, Structural)]
pub enum InheritanceError {
    /// The caller is not the identity whose authorization the operation
    /// demands (the owner on setup, the heir argument on claim).
    AuthorizationError,
    /// A setup named a deadline that is not strictly in the future.
    InvalidDeadlineError,
    /// The claiming identity is not the heir stored in the record.
    UnauthorizedHeirError,
    /// The record was already claimed once.
    AlreadyClaimedError,
    /// The current ledger time is still before the record's deadline.
    DeadlineNotReachedError,
}

/// One inheritance record, one per owner identity.
///
/// `owner`, `heir`, `asset_amount` and `deadline` never change after
/// creation; `is_claimed` goes from `false` to `true` exactly once.
/// `asset_amount` is an opaque quantity: the store never computes on it.
#[derive(Clone, Copy, Debug, PartialEq, Eq, Structural)]
pub struct Inheritance {
    pub owner: u64,
    pub heir: u64,
    pub asset_amount: i128,
    pub deadline: u64,
    pub is_claimed: bool,
}

/// The ledger storage key variant: one record slot per owner identity.
/// The store addresses records by the owner identity this tag carries.
pub enum InheritanceBook {
    Record(u64),
}

/// The record a fresh setup writes: the arguments as given, unclaimed.
pub open spec fn new_record(owner: u64, heir: u64, asset_amount: i128, deadline: u64) -> Inheritance {
    Inheritance { owner, heir, asset_amount, deadline, is_claimed: false }
}

/// The sentinel returned for an owner that never set anything up: heir equal
/// to the owner, zero amount, zero deadline, unclaimed. Absence of a record
/// degrades into this value rather than a distinct "not found" signal.
pub open spec fn sentinel_record(owner: u64) -> Inheritance {
    Inheritance { owner, heir: owner, asset_amount: 0, deadline: 0, is_claimed: false }
}

/// What a read of `owner`'s slot yields: the stored record, or the sentinel
/// when the slot is empty.
pub open spec fn stored_record(records: Map<u64, Inheritance>, owner: u64) -> Inheritance {
    if records.contains_key(owner) {
        records[owner]
    } else {
        sentinel_record(owner)
    }
}

} // verus!
