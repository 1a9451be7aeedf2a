use vstd::prelude::*;
use crate::errors::LedgerError;
use crate::plan::{Action, BalanceId};

verus! {

/// An in-memory model of the slice of the ledger one cancellation touches:
/// the six balances the plan can name, plus whether the escrow principal
/// balance and the deal record still exist. The real ledger commits a whole
/// attempt atomically; the model mirrors that by computing a new state only
/// when every step succeeds.
#[derive(Clone, Copy, Debug, PartialEq, Eq, Structural)]
pub struct Ledger {
    /// The escrow-held principal balance.
    pub deposit: u64,
    /// The client's balance, destination of the principal refund.
    pub client_token: u64,
    /// The escrow-held client-bond balance.
    pub client_bond_deposit: u64,
    /// The client's bond-return balance.
    pub client_bond: u64,
    /// The escrow-held executor-bond balance.
    pub executor_bond_deposit: u64,
    /// The executor's bond-return balance.
    pub executor_bond: u64,
    /// Whether the escrow principal balance still exists.
    pub deposit_open: bool,
    /// Whether the deal record still exists.
    pub record_open: bool,
}

/// The tokens a balance holds.
pub open spec fn balance_of(l: Ledger, b: BalanceId) -> u64 {
    match b {
        BalanceId::Deposit => l.deposit,
        BalanceId::ClientToken => l.client_token,
        BalanceId::ClientBondDeposit => l.client_bond_deposit,
        BalanceId::ClientBond => l.client_bond,
        BalanceId::ExecutorBondDeposit => l.executor_bond_deposit,
        BalanceId::ExecutorBond => l.executor_bond,
    }
}

/// The ledger with one balance replaced.
pub open spec fn with_balance(l: Ledger, b: BalanceId, v: u64) -> Ledger {
    match b {
        BalanceId::Deposit => Ledger { deposit: v, ..l },
        BalanceId::ClientToken => Ledger { client_token: v, ..l },
        BalanceId::ClientBondDeposit => Ledger { client_bond_deposit: v, ..l },
        BalanceId::ClientBond => Ledger { client_bond: v, ..l },
        BalanceId::ExecutorBondDeposit => Ledger { executor_bond_deposit: v, ..l },
        BalanceId::ExecutorBond => Ledger { executor_bond: v, ..l },
    }
}

/// What one transfer does: it fails when a touched balance is gone, when the
/// source holds less than the amount, or when the destination would no longer
/// be representable; otherwise the amount moves.
pub open spec fn transfer_spec(l: Ledger, from: BalanceId, to: BalanceId, amount: u64) -> Result<
    Ledger,
    LedgerError,
> {
    if (from == BalanceId::Deposit || to == BalanceId::Deposit) && !l.deposit_open {
        Err(LedgerError::AccountClosed)
    } else if balance_of(l, from) < amount {
        Err(LedgerError::InsufficientFunds)
    } else {
        let drained = with_balance(l, from, (balance_of(l, from) - amount) as u64);
        if balance_of(drained, to) + amount > u64::MAX {
            Err(LedgerError::BalanceOverflow)
        } else {
            Ok(with_balance(drained, to, (balance_of(drained, to) + amount) as u64))
        }
    }
}

/// What one settlement step does to the ledger.
pub open spec fn apply_action_spec(l: Ledger, a: Action) -> Result<Ledger, LedgerError> {
    match a {
        Action::Transfer { from, to, amount } => transfer_spec(l, from, to, amount),
        Action::CloseDeposit => if !l.deposit_open {
            Err(LedgerError::AccountClosed)
        } else if l.deposit != 0 {
            Err(LedgerError::BalanceMismatch)
        } else {
            Ok(Ledger { deposit_open: false, ..l })
        },
        Action::DestroyRecord => if !l.record_open {
            Err(LedgerError::AccountClosed)
        } else {
            Ok(Ledger { record_open: false, ..l })
        },
    }
}

/// What a whole sequence of steps does: the first failure aborts it, and
/// nothing of a failed sequence takes effect.
pub open spec fn apply_actions_spec(l: Ledger, s: Seq<Action>) -> Result<Ledger, LedgerError>
    decreases s.len(),
{
    if s.len() == 0 {
        Ok(l)
    } else {
        match apply_action_spec(l, s[0]) {
            Ok(l2) => apply_actions_spec(l2, s.drop_first()),
            Err(e) => Err(e),
        }
    }
}

/// Applying a sequence means applying its head, then the rest — and an early
/// failure is the failure of the whole sequence.
pub proof fn lemma_apply_cons(l: Ledger, a: Action, s: Seq<Action>)
    ensures
        apply_actions_spec(l, seq![a] + s) == (match apply_action_spec(l, a) {
            Ok(l2) => apply_actions_spec(l2, s),
            Err(e) => Err(e),
        }),
{
    let c = seq![a] + s;
    assert(c[0] == a);
    assert(c.drop_first() =~= s);
}

/// Applies one settlement step to the ledger model.
pub fn apply_action(l: &Ledger, a: &Action) -> (r: Result<Ledger, LedgerError>)
    ensures
        r == apply_action_spec(*l, *a),
{
    match *a {
        Action::Transfer { from, to, amount } => {
            if (matches!(from, BalanceId::Deposit) || matches!(to, BalanceId::Deposit))
                && !l.deposit_open {
                return Err(LedgerError::AccountClosed);
            }
            let src = read_balance(l, from);
            if src < amount {
                return Err(LedgerError::InsufficientFunds);
            }
            let drained = write_balance(l, from, src - amount);
            let dst = read_balance(&drained, to);
            if dst > u64::MAX - amount {
                return Err(LedgerError::BalanceOverflow);
            }
            Ok(write_balance(&drained, to, dst + amount))
        },
        Action::CloseDeposit => {
            if !l.deposit_open {
                return Err(LedgerError::AccountClosed);
            }
            if l.deposit != 0 {
                return Err(LedgerError::BalanceMismatch);
            }
            Ok(Ledger { deposit_open: false, ..*l })
        },
        Action::DestroyRecord => {
            if !l.record_open {
                return Err(LedgerError::AccountClosed);
            }
            Ok(Ledger { record_open: false, ..*l })
        },
    }
}

/// Reads one balance of the model.
pub fn read_balance(l: &Ledger, b: BalanceId) -> (r: u64)
    ensures
        r == balance_of(*l, b),
{
    match b {
        BalanceId::Deposit => l.deposit,
        BalanceId::ClientToken => l.client_token,
        BalanceId::ClientBondDeposit => l.client_bond_deposit,
        BalanceId::ClientBond => l.client_bond,
        BalanceId::ExecutorBondDeposit => l.executor_bond_deposit,
        BalanceId::ExecutorBond => l.executor_bond,
    }
}

/// The model with one balance replaced.
pub fn write_balance(l: &Ledger, b: BalanceId, v: u64) -> (r: Ledger)
    ensures
        r == with_balance(*l, b, v),
{
    match b {
        BalanceId::Deposit => Ledger { deposit: v, ..*l },
        BalanceId::ClientToken => Ledger { client_token: v, ..*l },
        BalanceId::ClientBondDeposit => Ledger { client_bond_deposit: v, ..*l },
        BalanceId::ClientBond => Ledger { client_bond: v, ..*l },
        BalanceId::ExecutorBondDeposit => Ledger { executor_bond_deposit: v, ..*l },
        BalanceId::ExecutorBond => Ledger { executor_bond: v, ..*l },
    }
}

/// Applies a whole settlement sequence; the first failure aborts it and the
/// caller's ledger value is left untouched.
pub fn apply_actions(l: &Ledger, actions: &Vec<Action>) -> (r: Result<Ledger, LedgerError>)
    ensures
        r == apply_actions_spec(*l, actions@),
{
    let mut cur: Ledger = *l;
    let mut i: usize = 0;
    proof {
        assert(actions@.skip(0) =~= actions@);
    }
    while i < actions.len()
        invariant
            i <= actions@.len(),
            apply_actions_spec(*l, actions@) == apply_actions_spec(cur, actions@.skip(i as int)),
        decreases actions@.len() - i,
    {
        proof {
            assert(actions@.skip(i as int)[0] == actions@[i as int]);
            assert(actions@.skip(i as int).drop_first() =~= actions@.skip(i as int + 1));
        }
        match apply_action(&cur, &actions[i]) {
            Ok(next) => {
                cur = next;
            },
            Err(e) => {
                return Err(e);
            },
        }
        i = i + 1;
    }
    proof {
        assert(actions@.skip(actions@.len() as int) =~= Seq::<Action>::empty());
    }
    Ok(cur)
}

} // verus!
