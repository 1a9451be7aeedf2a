use vstd::prelude::*;
use crate::errors::CancelError;
use crate::state::DealState;

verus! {

/// The lifecycle checks, evaluated in order with a short circuit on the first
/// failure: the deal must have started, it must have posted a bond, and an
/// agreed deadline (when one is set) must have passed.
pub open spec fn precondition_error(d: DealState, now: i64) -> Option<CancelError> {
    if !d.is_started {
        Some(CancelError::NotStarted)
    } else if !d.with_bond {
        Some(CancelError::NeedCancelWithoutBond)
    } else if d.deadline_ts > 0 && now < d.deadline_ts {
        Some(CancelError::DeadlineNotCome)
    } else {
        None
    }
}

/// Validates the deal's lifecycle state against the current time `now`.
/// Nothing is mutated: a failure here leaves every balance and the record
/// exactly as they were.
pub fn validate_preconditions(deal: &DealState, now: i64) -> (r: Result<(), CancelError>)
    ensures
        r is Ok <==> precondition_error(*deal, now) is None,
        r matches Err(e) ==> Some(e) == precondition_error(*deal, now),
{
    if !deal.is_started {
        return Err(CancelError::NotStarted);
    }
    if !deal.with_bond {
        return Err(CancelError::NeedCancelWithoutBond);
    }
    if deal.deadline_ts > 0 && now < deal.deadline_ts {
        return Err(CancelError::DeadlineNotCome);
    }
    Ok(())
}

} // verus!
