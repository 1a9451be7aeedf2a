use deal_contract::address::Address;
use deal_contract::errors::{CancelError, LedgerError};
use deal_contract::guard::authorize_caller;
use deal_contract::ledger::{apply_actions, Ledger};
use deal_contract::plan::{Action, BalanceId};
use deal_contract::settle::{cancel_with_bond, execute_cancel_with_bond};
use deal_contract::state::DealState;
use deal_contract::validate::validate_preconditions;

fn addr(tag: u8) -> Address {
    Address::new(vec![tag; 32])
}

fn base_deal() -> DealState {
    DealState {
        id: vec![1, 2, 3, 4],
        client_key: addr(1),
        executor_key: addr(2),
        checker_key: addr(3),
        is_started: true,
        with_bond: true,
        deadline_ts: 0,
        amount: 1000,
        checker_fee: 50,
        client_bond_amount: 200,
        executor_bond_amount: 0,
        authority_key: addr(4),
        deposit_key: addr(5),
        client_token_account_key: addr(6),
        client_bond_deposit_key: addr(7),
        client_bond_token_account_key: addr(8),
        executor_bond_deposit_key: addr(9),
        executor_bond_token_account_key: addr(10),
        bump: 254,
        authority_bump: 253,
    }
}

fn service() -> Address {
    addr(99)
}

fn base_ledger() -> Ledger {
    Ledger {
        deposit: 1050,
        client_token: 0,
        client_bond_deposit: 200,
        client_bond: 0,
        executor_bond_deposit: 0,
        executor_bond: 0,
        deposit_open: true,
        record_open: true,
    }
}

#[test]
fn scenario_full_cancel_with_client_bond() {
    let deal = base_deal();
    let caller = addr(1);
    let mut ledger = base_ledger();
    let r = execute_cancel_with_bond(&deal, &caller, &service(), 0, &mut ledger);
    assert!(r.is_ok());
    assert_eq!(ledger.client_token, 1050);
    assert_eq!(ledger.client_bond, 200);
    assert_eq!(ledger.client_bond_deposit, 0);
    assert_eq!(ledger.executor_bond, 0);
    assert_eq!(ledger.deposit, 0);
    assert!(!ledger.deposit_open);
    assert!(!ledger.record_open);
}

#[test]
fn scenario_future_deadline_refused() {
    let mut deal = base_deal();
    deal.deadline_ts = 1_000_000;
    let caller = addr(1);
    let mut ledger = base_ledger();
    let before = ledger;
    let r = execute_cancel_with_bond(&deal, &caller, &service(), 999_999, &mut ledger);
    assert_eq!(r, Err(CancelError::DeadlineNotCome));
    assert_eq!(ledger, before);
    assert!(ledger.record_open);
}

#[test]
fn scenario_deadline_passed_proceeds() {
    let mut deal = base_deal();
    deal.deadline_ts = 1_000_000;
    let caller = addr(1);
    let mut ledger = base_ledger();
    let r = execute_cancel_with_bond(&deal, &caller, &service(), 1_000_000, &mut ledger);
    assert!(r.is_ok());
    assert_eq!(ledger.client_token, 1050);
}

#[test]
fn scenario_no_bonds_only_principal_moves() {
    let mut deal = base_deal();
    deal.client_bond_amount = 0;
    deal.executor_bond_amount = 0;
    let caller = addr(2);
    let mut ledger = base_ledger();
    let r = execute_cancel_with_bond(&deal, &caller, &service(), 0, &mut ledger);
    assert!(r.is_ok());
    assert_eq!(ledger.client_token, 1050);
    assert_eq!(ledger.client_bond, 0);
    assert_eq!(ledger.client_bond_deposit, 200);
    assert!(!ledger.deposit_open);
    assert!(!ledger.record_open);
}

#[test]
fn scenario_checker_may_cancel() {
    let deal = base_deal();
    let caller = addr(3);
    let mut ledger = base_ledger();
    let r = execute_cancel_with_bond(&deal, &caller, &service(), 0, &mut ledger);
    assert!(r.is_ok());
    assert_eq!(ledger.client_token, 1050);
    assert_eq!(ledger.client_bond, 200);
}

#[test]
fn service_identity_may_cancel() {
    let deal = base_deal();
    let mut ledger = base_ledger();
    let r = execute_cancel_with_bond(&deal, &service(), &service(), 0, &mut ledger);
    assert!(r.is_ok());
}

#[test]
fn stranger_is_unauthorized_and_nothing_moves() {
    let deal = base_deal();
    let caller = addr(42);
    let mut ledger = base_ledger();
    let before = ledger;
    let r = execute_cancel_with_bond(&deal, &caller, &service(), 0, &mut ledger);
    assert_eq!(r, Err(CancelError::Unauthorized));
    assert_eq!(ledger, before);
}

#[test]
fn not_started_refused() {
    let mut deal = base_deal();
    deal.is_started = false;
    let mut ledger = base_ledger();
    let before = ledger;
    let r = execute_cancel_with_bond(&deal, &addr(1), &service(), 0, &mut ledger);
    assert_eq!(r, Err(CancelError::NotStarted));
    assert_eq!(ledger, before);
}

#[test]
fn not_started_wins_over_missing_bond() {
    let mut deal = base_deal();
    deal.is_started = false;
    deal.with_bond = false;
    let r = validate_preconditions(&deal, 0);
    assert_eq!(r, Err(CancelError::NotStarted));
}

#[test]
fn without_bond_needs_other_variant() {
    let mut deal = base_deal();
    deal.with_bond = false;
    let mut ledger = base_ledger();
    let r = execute_cancel_with_bond(&deal, &addr(1), &service(), 0, &mut ledger);
    assert_eq!(r, Err(CancelError::NeedCancelWithoutBond));
}

#[test]
fn repeated_failure_yields_same_error() {
    let mut deal = base_deal();
    deal.deadline_ts = 500;
    let mut ledger = base_ledger();
    let r1 = execute_cancel_with_bond(&deal, &addr(1), &service(), 100, &mut ledger);
    let r2 = execute_cancel_with_bond(&deal, &addr(1), &service(), 100, &mut ledger);
    assert_eq!(r1, Err(CancelError::DeadlineNotCome));
    assert_eq!(r1, r2);
    assert_eq!(ledger, base_ledger());
}

#[test]
fn destroyed_record_cannot_be_cancelled_again() {
    let deal = base_deal();
    let mut ledger = base_ledger();
    let r1 = execute_cancel_with_bond(&deal, &addr(1), &service(), 0, &mut ledger);
    assert!(r1.is_ok());
    let after = ledger;
    let r2 = execute_cancel_with_bond(&deal, &addr(1), &service(), 0, &mut ledger);
    assert_eq!(r2, Err(CancelError::Ledger(LedgerError::AccountClosed)));
    assert_eq!(ledger, after);
}

#[test]
fn underfunded_escrow_aborts_whole_attempt() {
    let deal = base_deal();
    let mut ledger = base_ledger();
    ledger.deposit = 1049;
    let before = ledger;
    let r = execute_cancel_with_bond(&deal, &addr(1), &service(), 0, &mut ledger);
    assert_eq!(r, Err(CancelError::Ledger(LedgerError::InsufficientFunds)));
    assert_eq!(ledger, before);
}

#[test]
fn missing_bond_funds_leave_principal_untouched() {
    let deal = base_deal();
    let mut ledger = base_ledger();
    ledger.client_bond_deposit = 199;
    let before = ledger;
    let r = execute_cancel_with_bond(&deal, &addr(1), &service(), 0, &mut ledger);
    assert_eq!(r, Err(CancelError::Ledger(LedgerError::InsufficientFunds)));
    assert_eq!(ledger, before);
}

#[test]
fn leftover_escrow_balance_aborts_closure() {
    let deal = base_deal();
    let mut ledger = base_ledger();
    ledger.deposit = 1051;
    let before = ledger;
    let r = execute_cancel_with_bond(&deal, &addr(1), &service(), 0, &mut ledger);
    assert_eq!(r, Err(CancelError::Ledger(LedgerError::BalanceMismatch)));
    assert_eq!(ledger, before);
}

#[test]
fn destination_overflow_aborts() {
    let deal = base_deal();
    let mut ledger = base_ledger();
    ledger.client_token = u64::MAX - 1049;
    let before = ledger;
    let r = execute_cancel_with_bond(&deal, &addr(1), &service(), 0, &mut ledger);
    assert_eq!(r, Err(CancelError::Ledger(LedgerError::BalanceOverflow)));
    assert_eq!(ledger, before);
}

#[test]
fn closed_escrow_balance_aborts() {
    let deal = base_deal();
    let mut ledger = base_ledger();
    ledger.deposit_open = false;
    let r = execute_cancel_with_bond(&deal, &addr(1), &service(), 0, &mut ledger);
    assert_eq!(r, Err(CancelError::Ledger(LedgerError::AccountClosed)));
}

#[test]
fn plan_lists_steps_in_order() {
    let deal = base_deal();
    let plan = cancel_with_bond(&deal, &addr(1), &service(), 0).unwrap();
    assert_eq!(
        plan,
        vec![
            Action::Transfer {
                from: BalanceId::Deposit,
                to: BalanceId::ClientToken,
                amount: 1050,
            },
            Action::Transfer {
                from: BalanceId::ClientBondDeposit,
                to: BalanceId::ClientBond,
                amount: 200,
            },
            Action::CloseDeposit,
            Action::DestroyRecord,
        ]
    );
}

#[test]
fn plan_includes_executor_bond_when_posted() {
    let mut deal = base_deal();
    deal.executor_bond_amount = 75;
    let plan = cancel_with_bond(&deal, &addr(1), &service(), 0).unwrap();
    assert_eq!(plan.len(), 5);
    assert_eq!(
        plan[2],
        Action::Transfer {
            from: BalanceId::ExecutorBondDeposit,
            to: BalanceId::ExecutorBond,
            amount: 75,
        }
    );
    assert_eq!(plan[4], Action::DestroyRecord);
}

#[test]
fn empty_plan_changes_nothing() {
    let ledger = base_ledger();
    let r = apply_actions(&ledger, &Vec::new());
    assert_eq!(r, Ok(ledger));
}

#[test]
fn each_party_passes_the_guard() {
    let deal = base_deal();
    assert!(authorize_caller(&addr(1), &deal, &service()).is_ok());
    assert!(authorize_caller(&addr(2), &deal, &service()).is_ok());
    assert!(authorize_caller(&addr(3), &deal, &service()).is_ok());
    assert!(authorize_caller(&service(), &deal, &service()).is_ok());
    assert_eq!(
        authorize_caller(&addr(77), &deal, &service()),
        Err(CancelError::Unauthorized)
    );
}
