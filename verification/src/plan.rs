use vstd::prelude::*;
use crate::state::DealState;

verus! {

/// The balances a cancellation touches, named by their role in the deal.
/// The transport layer maps each role to the concrete account the deal
/// record refers to.
#[derive(Clone, Copy, Debug, PartialEq, Eq, Structural)]
pub enum BalanceId {
    /// The escrow-held principal balance.
    Deposit,
    /// The client's balance, destination of the principal refund.
    ClientToken,
    /// The escrow-held client-bond balance.
    ClientBondDeposit,
    /// The client's bond-return balance.
    ClientBond,
    /// The escrow-held executor-bond balance.
    ExecutorBondDeposit,
    /// The executor's bond-return balance.
    ExecutorBond,
}

/// One step of the settlement sequence. The whole sequence commits
/// atomically: a failure anywhere aborts it with no partial effects.
#[derive(Clone, Copy, Debug, PartialEq, Eq, Structural)]
pub enum Action {
    /// Move `amount` from `from` to `to`, signed by the vault authority.
    Transfer { from: BalanceId, to: BalanceId, amount: u64 },
    /// Close the escrow principal balance; its storage deposit refunds to
    /// the caller that initiated cancellation.
    CloseDeposit,
    /// Destroy the deal record; its storage deposit refunds to the same
    /// caller. Always the last step, so a failure midway leaves the record
    /// intact and the attempt re-triggerable.
    DestroyRecord,
}

/// The ordered settlement sequence for a validated deal: the principal plus
/// the arbiter fee go back to the client unconditionally; each bond goes back
/// to its depositor only when one was posted (a zero bond is skipped, not
/// transferred as zero); then the escrow balance is closed and the record is
/// destroyed last.
pub open spec fn plan_of(d: DealState) -> Seq<Action>
    recommends
        d.refund_fits(),
{
    seq![
        Action::Transfer {
            from: BalanceId::Deposit,
            to: BalanceId::ClientToken,
            amount: (d.amount + d.checker_fee) as u64,
        },
    ] + (if d.client_bond_amount > 0 {
        seq![
            Action::Transfer {
                from: BalanceId::ClientBondDeposit,
                to: BalanceId::ClientBond,
                amount: d.client_bond_amount,
            },
        ]
    } else {
        Seq::<Action>::empty()
    }) + (if d.executor_bond_amount > 0 {
        seq![
            Action::Transfer {
                from: BalanceId::ExecutorBondDeposit,
                to: BalanceId::ExecutorBond,
                amount: d.executor_bond_amount,
            },
        ]
    } else {
        Seq::<Action>::empty()
    }) + seq![Action::CloseDeposit, Action::DestroyRecord]
}

/// Builds the settlement sequence for a validated deal.
pub fn settlement_plan(deal: &DealState) -> (p: Vec<Action>)
    requires
        deal.refund_fits(),
    ensures
        p@ == plan_of(*deal),
{
    let mut p: Vec<Action> = Vec::new();
    let refund = deal.amount + deal.checker_fee;
    p.push(Action::Transfer { from: BalanceId::Deposit, to: BalanceId::ClientToken, amount: refund });
    if deal.client_bond_amount > 0 {
        p.push(Action::Transfer {
            from: BalanceId::ClientBondDeposit,
            to: BalanceId::ClientBond,
            amount: deal.client_bond_amount,
        });
    }
    if deal.executor_bond_amount > 0 {
        p.push(Action::Transfer {
            from: BalanceId::ExecutorBondDeposit,
            to: BalanceId::ExecutorBond,
            amount: deal.executor_bond_amount,
        });
    }
    p.push(Action::CloseDeposit);
    p.push(Action::DestroyRecord);
    proof {
        assert(p@ =~= plan_of(*deal));
    }
    p
}

} // verus!
