use vstd::prelude::*;
use crate::errors::CancelError;
use crate::guard::authorized;
use crate::ledger::Ledger;
use crate::plan::{plan_of, Action, BalanceId};
use crate::settle::{cancel_error, settle_outcome};
use crate::state::DealState;

verus! {

/// A deal that was never started is refused as `NotStarted`, whatever the
/// ledger looks like: the outcome is that error, and a refused attempt
/// mutates nothing.
pub proof fn lemma_not_started_fails(
    d: DealState,
    caller: Seq<u8>,
    service: Seq<u8>,
    now: i64,
    l: Ledger,
)
    requires
        authorized(caller, d, service),
        !d.is_started,
        l.record_open,
    ensures
        cancel_error(d, caller, service, now) == Some(CancelError::NotStarted),
        settle_outcome(d, caller, service, now, l) == Err::<Ledger, CancelError>(
            CancelError::NotStarted,
        ),
{
}

/// A started deal that posted no bond is refused as `NeedCancelWithoutBond`,
/// regardless of deadline, amounts or the ledger: the bond-free variant
/// applies instead.
pub proof fn lemma_without_bond_fails(
    d: DealState,
    caller: Seq<u8>,
    service: Seq<u8>,
    now: i64,
    l: Ledger,
)
    requires
        authorized(caller, d, service),
        d.is_started,
        !d.with_bond,
        l.record_open,
    ensures
        cancel_error(d, caller, service, now) == Some(CancelError::NeedCancelWithoutBond),
        settle_outcome(d, caller, service, now, l) == Err::<Ledger, CancelError>(
            CancelError::NeedCancelWithoutBond,
        ),
{
}

/// With a deadline set and not yet reached, cancellation is refused as
/// `DeadlineNotCome`; once the time has come (or no deadline was set), every
/// precondition is met and the attempt proceeds to settlement.
pub proof fn lemma_deadline_gate(
    d: DealState,
    caller: Seq<u8>,
    service: Seq<u8>,
    now: i64,
    l: Ledger,
)
    requires
        authorized(caller, d, service),
        d.is_started,
        d.with_bond,
        l.record_open,
    ensures
        d.deadline_ts > 0 && now < d.deadline_ts ==> settle_outcome(d, caller, service, now, l)
            == Err::<Ledger, CancelError>(CancelError::DeadlineNotCome),
        d.deadline_ts == 0 || now >= d.deadline_ts ==> cancel_error(d, caller, service, now)
            is None,
{
}

/// A caller that is none of the client, the executor, the checker and the
/// service identity is refused as `Unauthorized` before anything else is
/// looked at, and no mutation occurs.
pub proof fn lemma_unauthorized_fails(
    d: DealState,
    caller: Seq<u8>,
    service: Seq<u8>,
    now: i64,
    l: Ledger,
)
    requires
        caller != d.client_key@,
        caller != d.executor_key@,
        caller != d.checker_key@,
        caller != service,
        l.record_open,
    ensures
        cancel_error(d, caller, service, now) == Some(CancelError::Unauthorized),
        settle_outcome(d, caller, service, now, l) == Err::<Ledger, CancelError>(
            CancelError::Unauthorized,
        ),
{
}

/// Failure is idempotent: a failed attempt leaves the state unchanged, so
/// repeating it against that unchanged state yields the very same error.
pub proof fn lemma_failure_idempotent(
    d: DealState,
    caller: Seq<u8>,
    service: Seq<u8>,
    now: i64,
    l: Ledger,
    l_retry: Ledger,
    e: CancelError,
)
    requires
        settle_outcome(d, caller, service, now, l) == Err::<Ledger, CancelError>(e),
        l_retry == l,
    ensures
        settle_outcome(d, caller, service, now, l_retry) == Err::<Ledger, CancelError>(e),
{
}

/// The settlement sequence always begins by refunding the principal and the
/// fee to the client, and always ends by destroying the record — so a failure
/// anywhere leaves the record intact and the attempt re-triggerable.
pub proof fn lemma_plan_order(d: DealState)
    requires
        d.refund_fits(),
    ensures
        plan_of(d).len() >= 3,
        plan_of(d)[0] == (Action::Transfer {
            from: BalanceId::Deposit,
            to: BalanceId::ClientToken,
            amount: (d.amount + d.checker_fee) as u64,
        }),
        plan_of(d).last() == Action::DestroyRecord,
        plan_of(d)[plan_of(d).len() - 2] == Action::CloseDeposit,
{
}

} // verus!
