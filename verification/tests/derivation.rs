use deal_contract::address::{address_eq, Address};
use deal_contract::authority::{authority_seeds, derive_authority, derive_record_address};
use deal_contract::state::DealState;

fn addr(tag: u8) -> Address {
    Address::new(vec![tag; 32])
}

fn deal_for_derivation(authority_bump: u8, bump: u8) -> DealState {
    DealState {
        id: vec![10, 20, 30],
        client_key: addr(11),
        executor_key: addr(12),
        checker_key: addr(13),
        is_started: true,
        with_bond: true,
        deadline_ts: 0,
        amount: 1,
        checker_fee: 0,
        client_bond_amount: 0,
        executor_bond_amount: 0,
        authority_key: addr(14),
        deposit_key: addr(15),
        client_token_account_key: addr(16),
        client_bond_deposit_key: addr(17),
        client_bond_token_account_key: addr(18),
        executor_bond_deposit_key: addr(19),
        executor_bond_token_account_key: addr(20),
        bump,
        authority_bump,
    }
}

fn program_id() -> Address {
    addr(250)
}

/// The first authority bump, counting down from 255, whose derivation yields
/// a usable address for the fixed test inputs.
fn usable_authority_bump() -> u8 {
    let mut bump = 255;
    loop {
        let deal = deal_for_derivation(bump, 0);
        if derive_authority(&deal, &program_id()).is_some() {
            return bump;
        }
        assert!(bump > 0, "no usable bump found");
        bump -= 1;
    }
}

#[test]
fn derivation_is_deterministic() {
    let bump = usable_authority_bump();
    let deal = deal_for_derivation(bump, 0);
    let a = derive_authority(&deal, &program_id()).unwrap();
    let b = derive_authority(&deal, &program_id()).unwrap();
    assert!(address_eq(&a, &b));
    assert_eq!(a.bytes, b.bytes);
    assert_eq!(a.bytes.len(), 32);
}

#[test]
fn derivation_matches_the_ledger_primitive() {
    let bump = usable_authority_bump();
    let deal = deal_for_derivation(bump, 0);
    let ours = derive_authority(&deal, &program_id()).unwrap();
    let pid = solana_pubkey::Pubkey::new_from_array([250u8; 32]);
    let theirs = solana_pubkey::Pubkey::create_program_address(
        &[
            &deal.id,
            b"auth".as_ref(),
            &deal.client_key.bytes,
            &deal.executor_key.bytes,
            &[bump],
        ],
        &pid,
    )
    .unwrap();
    assert_eq!(ours.bytes, theirs.to_bytes().to_vec());
}

#[test]
fn derived_identity_differs_from_every_input() {
    let bump = usable_authority_bump();
    let deal = deal_for_derivation(bump, 0);
    let a = derive_authority(&deal, &program_id()).unwrap();
    assert!(!address_eq(&a, &deal.client_key));
    assert!(!address_eq(&a, &deal.executor_key));
    assert!(!address_eq(&a, &program_id()));
}

#[test]
fn changing_the_bump_changes_the_identity() {
    let b1 = usable_authority_bump();
    let mut b2 = b1 - 1;
    let a1 = derive_authority(&deal_for_derivation(b1, 0), &program_id()).unwrap();
    let a2 = loop {
        if let Some(a) = derive_authority(&deal_for_derivation(b2, 0), &program_id()) {
            break a;
        }
        assert!(b2 > 0, "no second usable bump found");
        b2 -= 1;
    };
    assert!(!address_eq(&a1, &a2));
}

#[test]
fn authority_and_record_addresses_never_coincide() {
    let bump = usable_authority_bump();
    let mut record_bump = 255;
    let (record, record_bump) = loop {
        let deal = deal_for_derivation(bump, record_bump);
        if let Some(a) = derive_record_address(&deal, &program_id()) {
            break (a, record_bump);
        }
        assert!(record_bump > 0, "no usable record bump found");
        record_bump -= 1;
    };
    let authority = derive_authority(&deal_for_derivation(bump, record_bump), &program_id())
        .unwrap();
    assert!(!address_eq(&authority, &record));
}

#[test]
fn authority_seeds_lay_out_the_tuple() {
    let deal = deal_for_derivation(251, 252);
    let seeds = authority_seeds(&deal);
    assert_eq!(seeds.len(), 5);
    assert_eq!(seeds[0], vec![10, 20, 30]);
    assert_eq!(seeds[1], b"auth".to_vec());
    assert_eq!(seeds[2], vec![11u8; 32]);
    assert_eq!(seeds[3], vec![12u8; 32]);
    assert_eq!(seeds[4], vec![251u8]);
}

#[test]
fn record_derivation_matches_the_ledger_primitive() {
    let mut bump = 255;
    let (ours, bump) = loop {
        let deal = deal_for_derivation(0, bump);
        if let Some(a) = derive_record_address(&deal, &program_id()) {
            break (a, bump);
        }
        assert!(bump > 0, "no usable bump found");
        bump -= 1;
    };
    let deal = deal_for_derivation(0, bump);
    let pid = solana_pubkey::Pubkey::new_from_array([250u8; 32]);
    let theirs = solana_pubkey::Pubkey::create_program_address(
        &[
            &deal.id,
            b"state".as_ref(),
            &deal.client_key.bytes,
            &deal.executor_key.bytes,
            &[bump],
        ],
        &pid,
    )
    .unwrap();
    assert_eq!(ours.bytes, theirs.to_bytes().to_vec());
}
