//! A deterministic ledger-resident record store modelling a time-locked
//! inheritance arrangement.
//!
//! An owner registers a future transfer of an asset amount to a designated
//! heir; the record is unlockable only at or after its deadline, only by that
//! heir, and only once. The store keeps one record per owner identity (a
//! later setup overwrites an earlier one) and a global counter of setup calls.
//!
//! Identities are plain `u64` values here: the host ledger environment that
//! authenticates callers, supplies the clock, and persists records is out of
//! scope and is represented at the boundary by the explicit `caller` and
//! `current_time` arguments of each operation.

pub mod laws;
pub mod records;
pub mod store;
