use vstd::prelude::*;
use crate::address::Address;
use crate::errors::{CancelError, LedgerError};
use crate::guard::{authorize_caller, authorized};
use crate::errors::LedgerError as LErr;
use crate::ledger::{apply_actions, apply_actions_spec, apply_action_spec, lemma_apply_cons, Ledger};
use crate::plan::{plan_of, settlement_plan, Action, BalanceId};
use crate::state::DealState;
use crate::validate::{precondition_error, validate_preconditions};

verus! {

/// The first reason a cancellation attempt is refused, before any balance is
/// touched: an unauthorized caller, then the lifecycle checks in order.
/// `None` means the attempt proceeds to settlement.
pub open spec fn cancel_error(d: DealState, caller: Seq<u8>, service: Seq<u8>, now: i64) -> Option<
    CancelError,
> {
    if !authorized(caller, d, service) {
        Some(CancelError::Unauthorized)
    } else {
        precondition_error(d, now)
    }
}

/// The outcome of a whole attempt against a ledger state: an attempt against
/// an already-destroyed record fails as account-closed; a refused attempt
/// surfaces its precondition error; otherwise the settlement sequence runs
/// and either commits as a whole or surfaces the ledger error that stopped
/// it.
pub open spec fn settle_outcome(
    d: DealState,
    caller: Seq<u8>,
    service: Seq<u8>,
    now: i64,
    l: Ledger,
) -> Result<Ledger, CancelError> {
    if !l.record_open {
        Err(CancelError::Ledger(LedgerError::AccountClosed))
    } else {
        match cancel_error(d, caller, service, now) {
            Some(e) => Err(e),
            None => match apply_actions_spec(l, plan_of(d)) {
                Ok(l2) => Ok(l2),
                Err(le) => Err(CancelError::Ledger(le)),
            },
        }
    }
}

/// When a validated deal's settlement sequence can run to completion against
/// a ledger state: both the escrow balance and the record still exist, the
/// escrow holds exactly the principal plus the fee, each escrow-held bond
/// covers the bond to return, and no destination balance would overflow.
pub open spec fn settles(d: DealState, l: Ledger) -> bool
    recommends
        d.refund_fits(),
{
    &&& l.deposit_open
    &&& l.record_open
    &&& l.deposit == d.amount + d.checker_fee
    &&& l.client_token + d.amount + d.checker_fee <= u64::MAX
    &&& l.client_bond_deposit >= d.client_bond_amount
    &&& l.client_bond + d.client_bond_amount <= u64::MAX
    &&& l.executor_bond_deposit >= d.executor_bond_amount
    &&& l.executor_bond + d.executor_bond_amount <= u64::MAX
}

/// The ledger after a successful settlement: the client received the
/// principal and the fee, each posted bond went back to its depositor, the
/// escrow balance is empty and closed, and the record is destroyed.
pub open spec fn settled_ledger(d: DealState, l: Ledger) -> Ledger
    recommends
        settles(d, l),
{
    Ledger {
        deposit: 0,
        client_token: (l.client_token + d.amount + d.checker_fee) as u64,
        client_bond_deposit: (l.client_bond_deposit - d.client_bond_amount) as u64,
        client_bond: (l.client_bond + d.client_bond_amount) as u64,
        executor_bond_deposit: (l.executor_bond_deposit - d.executor_bond_amount) as u64,
        executor_bond: (l.executor_bond + d.executor_bond_amount) as u64,
        deposit_open: false,
        record_open: false,
    }
}

/// The settlement sequence commits exactly when `settles` holds of the
/// ledger, and then it moves the balances just as the sequence says: the
/// client receives the principal and the fee, each posted bond returns to
/// its depositor, the escrow balance ends empty and closed, and the record
/// is destroyed — all of it, or none.
pub proof fn lemma_settlement_effects(d: DealState, l: Ledger)
    requires
        d.refund_fits(),
    ensures
        apply_actions_spec(l, plan_of(d)) is Ok <==> settles(d, l),
        settles(d, l) ==> apply_actions_spec(l, plan_of(d)) == Ok::<Ledger, LErr>(
            settled_ledger(d, l),
        ),
{
    let refund = (d.amount + d.checker_fee) as u64;
    let cb = d.client_bond_amount;
    let eb = d.executor_bond_amount;
    let t1 = (Action::Transfer {
        from: BalanceId::Deposit,
        to: BalanceId::ClientToken,
        amount: refund,
    });
    let t2 = (Action::Transfer {
        from: BalanceId::ClientBondDeposit,
        to: BalanceId::ClientBond,
        amount: cb,
    });
    let t3 = (Action::Transfer {
        from: BalanceId::ExecutorBondDeposit,
        to: BalanceId::ExecutorBond,
        amount: eb,
    });
    let tail = seq![Action::CloseDeposit, Action::DestroyRecord];
    let mid_e: Seq<Action> = if eb > 0 {
        seq![t3]
    } else {
        Seq::<Action>::empty()
    };
    let mid_c: Seq<Action> = if cb > 0 {
        seq![t2]
    } else {
        Seq::<Action>::empty()
    };
    let mid = mid_c + (mid_e + tail);
    assert(plan_of(d) =~= seq![t1] + mid);
    lemma_apply_cons(l, t1, mid);
    if l.deposit_open && l.deposit >= refund && l.client_token + refund <= u64::MAX {
        let l1 = (Ledger {
            deposit: (l.deposit - refund) as u64,
            client_token: (l.client_token + refund) as u64,
            ..l
        });
        assert(apply_action_spec(l, t1) == Ok::<Ledger, LErr>(l1));
        assert(apply_actions_spec(l, plan_of(d)) == apply_actions_spec(l1, mid));
        if cb > 0 {
            assert(mid =~= seq![t2] + (mid_e + tail));
            lemma_apply_cons(l1, t2, mid_e + tail);
        } else {
            assert(mid =~= mid_e + tail);
        }
        if cb > 0 && !(l.client_bond_deposit >= cb && l.client_bond + cb <= u64::MAX) {
            assert(apply_action_spec(l1, t2) is Err);
            assert(apply_actions_spec(l1, mid) is Err);
            assert(!settles(d, l));
        } else {
            let l2 = (Ledger {
                client_bond_deposit: (l.client_bond_deposit - cb) as u64,
                client_bond: (l.client_bond + cb) as u64,
                ..l1
            });
            if cb > 0 {
                assert(apply_action_spec(l1, t2) == Ok::<Ledger, LErr>(l2));
            } else {
                assert(l2 == l1);
            }
            assert(apply_actions_spec(l1, mid) == apply_actions_spec(l2, mid_e + tail));
            if eb > 0 {
                assert(mid_e + tail =~= seq![t3] + tail);
                lemma_apply_cons(l2, t3, tail);
            } else {
                assert(mid_e + tail =~= tail);
            }
            if eb > 0 && !(l.executor_bond_deposit >= eb && l.executor_bond + eb <= u64::MAX) {
                assert(apply_action_spec(l2, t3) is Err);
                assert(apply_actions_spec(l2, mid_e + tail) is Err);
                assert(!settles(d, l));
            } else {
                let l3 = (Ledger {
                    executor_bond_deposit: (l.executor_bond_deposit - eb) as u64,
                    executor_bond: (l.executor_bond + eb) as u64,
                    ..l2
                });
                if eb > 0 {
                    assert(apply_action_spec(l2, t3) == Ok::<Ledger, LErr>(l3));
                } else {
                    assert(l3 == l2);
                }
                assert(apply_actions_spec(l2, mid_e + tail) == apply_actions_spec(l3, tail));
                assert(tail =~= seq![Action::CloseDeposit] + seq![Action::DestroyRecord]);
                lemma_apply_cons(l3, Action::CloseDeposit, seq![Action::DestroyRecord]);
                if l3.deposit != 0 {
                    assert(apply_action_spec(l3, Action::CloseDeposit) == Err::<Ledger, LErr>(
                        LErr::BalanceMismatch,
                    ));
                    assert(apply_actions_spec(l3, tail) is Err);
                    assert(l.deposit != refund);
                    assert(!settles(d, l));
                } else {
                    let l4 = (Ledger { deposit_open: false, ..l3 });
                    assert(apply_action_spec(l3, Action::CloseDeposit) == Ok::<Ledger, LErr>(l4));
                    assert(seq![Action::DestroyRecord] =~= seq![Action::DestroyRecord]
                        + Seq::<Action>::empty());
                    lemma_apply_cons(l4, Action::DestroyRecord, Seq::<Action>::empty());
                    if l.record_open {
                        let l5 = (Ledger { record_open: false, ..l4 });
                        assert(apply_action_spec(l4, Action::DestroyRecord) == Ok::<Ledger, LErr>(
                            l5,
                        ));
                        assert(apply_actions_spec(l, plan_of(d)) == Ok::<Ledger, LErr>(l5));
                        assert(settles(d, l));
                        assert(l5 == settled_ledger(d, l));
                    } else {
                        assert(apply_action_spec(l4, Action::DestroyRecord) is Err);
                        assert(apply_actions_spec(l3, tail) is Err);
                        assert(!settles(d, l));
                    }
                }
            }
        }
    } else {
        assert(apply_action_spec(l, t1) is Err);
        assert(apply_actions_spec(l, plan_of(d)) is Err);
        assert(!settles(d, l));
    }
}

/// Success of a whole attempt is owed exactly when the record still exists,
/// the caller and the deal pass every check, and the ledger can settle; and
/// then the outcome is the settled ledger, nothing else.
pub proof fn lemma_outcome_characterization(
    d: DealState,
    caller: Seq<u8>,
    service: Seq<u8>,
    now: i64,
    l: Ledger,
)
    requires
        d.refund_fits(),
    ensures
        settle_outcome(d, caller, service, now, l) is Ok <==> (l.record_open && cancel_error(
            d,
            caller,
            service,
            now,
        ) is None && settles(d, l)),
        settle_outcome(d, caller, service, now, l) is Ok ==> settle_outcome(
            d,
            caller,
            service,
            now,
            l,
        ) == Ok::<Ledger, CancelError>(settled_ledger(d, l)),
{
    lemma_settlement_effects(d, l);
}

/// Authorizes the caller, validates the deal, and hands back the ordered
/// settlement sequence for the transport layer to perform. Nothing is
/// mutated here; a refusal carries the exact error and leaves all state
/// untouched.
pub fn cancel_with_bond(
    deal: &DealState,
    caller: &Address,
    service: &Address,
    now: i64,
) -> (r: Result<Vec<Action>, CancelError>)
    requires
        cancel_error(*deal, caller@, service@, now) is None ==> deal.refund_fits(),
    ensures
        r is Ok <==> cancel_error(*deal, caller@, service@, now) is None,
        r matches Ok(p) ==> p@ == plan_of(*deal),
        r matches Err(e) ==> Some(e) == cancel_error(*deal, caller@, service@, now),
{
    authorize_caller(caller, deal, service)?;
    validate_preconditions(deal, now)?;
    Ok(settlement_plan(deal))
}

/// Runs one whole cancellation attempt against the ledger model: guard,
/// validation, then the all-or-nothing settlement sequence. On any failure
/// the ledger is left exactly as it was; on success it holds the settled
/// balances, the escrow balance is closed and the record is destroyed.
pub fn execute_cancel_with_bond(
    deal: &DealState,
    caller: &Address,
    service: &Address,
    now: i64,
    ledger: &mut Ledger,
) -> (r: Result<(), CancelError>)
    requires
        old(ledger).record_open && cancel_error(*deal, caller@, service@, now) is None
            ==> deal.refund_fits(),
    ensures
        r is Ok <==> settle_outcome(*deal, caller@, service@, now, *old(ledger)) is Ok,
        r is Ok ==> Ok::<Ledger, CancelError>(*final(ledger)) == settle_outcome(
            *deal,
            caller@,
            service@,
            now,
            *old(ledger),
        ),
        r matches Err(e) ==> Err::<Ledger, CancelError>(e) == settle_outcome(
            *deal,
            caller@,
            service@,
            now,
            *old(ledger),
        ),
        r is Err ==> *final(ledger) == *old(ledger),
{
    if !ledger.record_open {
        return Err(CancelError::Ledger(LedgerError::AccountClosed));
    }
    let plan = match cancel_with_bond(deal, caller, service, now) {
        Ok(p) => p,
        Err(e) => {
            return Err(e);
        },
    };
    let snapshot: Ledger = *ledger;
    match apply_actions(&snapshot, &plan) {
        Ok(l2) => {
            *ledger = l2;
            Ok(())
        },
        Err(le) => Err(CancelError::Ledger(le)),
    }
}

} // verus!
