//! Laws of the store, stated over the same spec functions the operation
//! contracts use, so that what holds of every state is written down once and
//! proved by the verifier rather than only exercised by tests.

use vstd::prelude::*;

use crate::records::{new_record, stored_record, Inheritance, InheritanceError};
use crate::store::{claim_outcome, claimed_record, setup_outcome};

verus! {

/// Immediately after a successful setup, the record read back for that owner
/// is exactly the record built from the setup's arguments, with
/// `is_claimed` false — whatever the slot held before.
pub proof fn lemma_view_after_setup(
    records: Map<u64, Inheritance>,
    caller: u64,
    owner: u64,
    heir: u64,
    asset_amount: i128,
    deadline: u64,
    now: u64,
)
    requires
        setup_outcome(caller, owner, deadline, now) is Ok,
    ensures
        stored_record(
            records.insert(owner, new_record(owner, heir, asset_amount, deadline)),
            owner,
        ) == new_record(owner, heir, asset_amount, deadline),
        !new_record(owner, heir, asset_amount, deadline).is_claimed,
{
}

/// A setup whose deadline is not strictly in the future is always rejected,
/// whoever calls and whatever the prior records hold; when the caller is the
/// owner the rejection is `InvalidDeadlineError`.
pub proof fn lemma_past_deadline_rejected(caller: u64, owner: u64, deadline: u64, now: u64)
    requires
        deadline <= now,
    ensures
        setup_outcome(caller, owner, deadline, now) is Err,
        caller == owner ==> setup_outcome(caller, owner, deadline, now) == Err::<
            (),
            InheritanceError,
        >(InheritanceError::InvalidDeadlineError),
{
}

/// A claim succeeds exactly when the designated heir is the authenticated
/// caller, the stored record (the sentinel for a never-configured owner)
/// names that heir, the record is still unclaimed, and the current time has
/// reached the deadline. Before the deadline it is always rejected.
pub proof fn lemma_claim_success_characterization(
    records: Map<u64, Inheritance>,
    caller: u64,
    owner: u64,
    heir: u64,
    now: u64,
)
    ensures
        claim_outcome(records, caller, owner, heir, now) is Ok <==> {
            let record = stored_record(records, owner);
            &&& caller == heir
            &&& record.heir == heir
            &&& !record.is_claimed
            &&& now >= record.deadline
        },
{
}

/// A successful claim is one-shot: against the records it leaves behind,
/// every further claim of the same owner's record is rejected, at every
/// later time and by every caller; the designated heir's own retry is
/// rejected with `AlreadyClaimedError` exactly.
pub proof fn lemma_second_claim_rejected(
    records: Map<u64, Inheritance>,
    caller: u64,
    owner: u64,
    heir: u64,
    first_time: u64,
    second_caller: u64,
    second_heir: u64,
    second_time: u64,
)
    requires
        claim_outcome(records, caller, owner, heir, first_time) is Ok,
    ensures
        claim_outcome(
            records.insert(owner, claimed_record(records, owner)),
            second_caller,
            owner,
            second_heir,
            second_time,
        ) is Err,
        second_caller == heir && second_heir == heir ==> claim_outcome(
            records.insert(owner, claimed_record(records, owner)),
            second_caller,
            owner,
            second_heir,
            second_time,
        ) == Err::<(), InheritanceError>(InheritanceError::AlreadyClaimedError),
{
}

/// Nobody but the stored heir can ever claim: a caller whose identity
/// differs from the heir recorded in `owner`'s slot is rejected whatever
/// heir argument it names and regardless of the deadline.
pub proof fn lemma_only_heir_can_claim(
    records: Map<u64, Inheritance>,
    caller: u64,
    owner: u64,
    heir: u64,
    now: u64,
)
    requires
        caller != stored_record(records, owner).heir,
    ensures
        claim_outcome(records, caller, owner, heir, now) is Err,
{
}

} // verus!
