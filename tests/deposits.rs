use ansem_fight::{deposit_sol, same_key, DepositError, DepositSol, Depositor, Ledger, Vault};

const PROGRAM: [u8; 32] = [7u8; 32];

fn key(b: u8) -> [u8; 32] {
    [b; 32]
}

#[test]
fn three_deposits_by_two_depositors() {
    let mut ledger = Ledger::new(PROGRAM);
    let a = key(1);
    let b = key(2);
    assert_eq!(ledger.deposit_at(a, 100, true), Ok(()));
    assert_eq!(ledger.depositor_at(&a), Some(Depositor { total_deposited: 100 }));
    assert_eq!(ledger.vault(), Some(Vault { total_deposited: 100 }));
    assert_eq!(ledger.deposit_at(b, 50, true), Ok(()));
    assert_eq!(ledger.depositor_at(&b), Some(Depositor { total_deposited: 50 }));
    assert_eq!(ledger.vault(), Some(Vault { total_deposited: 150 }));
    assert_eq!(ledger.deposit_at(a, 25, true), Ok(()));
    assert_eq!(ledger.depositor_at(&a), Some(Depositor { total_deposited: 125 }));
    assert_eq!(ledger.vault(), Some(Vault { total_deposited: 175 }));
}

#[test]
fn three_deposits_by_payer_keys() {
    let mut ledger = Ledger::new(PROGRAM);
    let a = key(1);
    let b = key(2);
    assert_eq!(ledger.deposit(&a, 100, true), Ok(()));
    assert_eq!(ledger.deposit(&b, 50, true), Ok(()));
    assert_eq!(ledger.deposit(&a, 25, true), Ok(()));
    assert_eq!(ledger.depositor(&a), Some(Depositor { total_deposited: 125 }));
    assert_eq!(ledger.depositor(&b), Some(Depositor { total_deposited: 50 }));
    assert_eq!(ledger.vault(), Some(Vault { total_deposited: 175 }));
}

#[test]
fn failed_transfer_changes_nothing() {
    let mut ledger = Ledger::new(PROGRAM);
    let a = key(1);
    let c = key(3);
    assert_eq!(ledger.deposit(&a, 100, true), Ok(()));
    assert_eq!(ledger.deposit(&c, 20, false), Err(DepositError::TransferFailed));
    assert_eq!(ledger.vault(), Some(Vault { total_deposited: 100 }));
    assert_eq!(ledger.depositor(&c), None);
    assert_eq!(ledger.depositor(&a), Some(Depositor { total_deposited: 100 }));
}

#[test]
fn failed_first_transfer_creates_no_vault() {
    let mut ledger = Ledger::new(PROGRAM);
    let c = key(3);
    assert_eq!(ledger.deposit(&c, 20, false), Err(DepositError::TransferFailed));
    assert_eq!(ledger.vault(), None);
    assert_eq!(ledger.depositor(&c), None);
}

#[test]
fn first_deposit_creates_then_second_updates() {
    let mut ledger = Ledger::new(PROGRAM);
    let a = key(9);
    assert_eq!(ledger.depositor_at(&a), None);
    assert_eq!(ledger.deposit_at(a, 40, true), Ok(()));
    assert_eq!(ledger.depositor_at(&a), Some(Depositor { total_deposited: 40 }));
    assert_eq!(ledger.deposit_at(a, 2, true), Ok(()));
    assert_eq!(ledger.depositor_at(&a), Some(Depositor { total_deposited: 42 }));
    assert_eq!(ledger.vault(), Some(Vault { total_deposited: 42 }));
}

#[test]
fn vault_total_is_sum_of_all_deposits() {
    let mut ledger = Ledger::new(PROGRAM);
    let deposits: [(u8, u64); 6] = [(1, 10), (2, 20), (1, 30), (3, 0), (4, 7), (2, 1)];
    let mut sum: u64 = 0;
    for (who, amount) in deposits {
        assert_eq!(ledger.deposit_at(key(who), amount, true), Ok(()));
        sum += amount;
        assert_eq!(ledger.vault(), Some(Vault { total_deposited: sum }));
    }
    assert_eq!(sum, 68);
    let per_depositor: u64 = (1..=4u8)
        .map(|who| ledger.depositor_at(&key(who)).unwrap().total_deposited)
        .sum();
    assert_eq!(per_depositor, 68);
}

#[test]
fn zero_deposit_creates_records() {
    let mut ledger = Ledger::new(PROGRAM);
    let a = key(5);
    assert_eq!(ledger.deposit_at(a, 0, true), Ok(()));
    assert_eq!(ledger.vault(), Some(Vault { total_deposited: 0 }));
    assert_eq!(ledger.depositor_at(&a), Some(Depositor { total_deposited: 0 }));
}

#[test]
fn overflow_is_refused_and_changes_nothing() {
    let mut ledger = Ledger::new(PROGRAM);
    let a = key(1);
    let b = key(2);
    assert_eq!(ledger.deposit_at(a, u64::MAX, true), Ok(()));
    assert_eq!(ledger.deposit_at(b, 1, true), Err(DepositError::Overflow));
    assert_eq!(ledger.vault(), Some(Vault { total_deposited: u64::MAX }));
    assert_eq!(ledger.depositor_at(&b), None);
}

#[test]
fn transfer_failure_comes_before_overflow() {
    let mut ledger = Ledger::new(PROGRAM);
    let a = key(1);
    assert_eq!(ledger.deposit_at(a, u64::MAX, true), Ok(()));
    assert_eq!(ledger.deposit_at(a, 1, false), Err(DepositError::TransferFailed));
}

#[test]
fn deposit_sol_creates_missing_records() {
    let mut ctx = DepositSol { depositor_address: key(1), vault: None, depositor: None };
    assert_eq!(deposit_sol(&mut ctx, 100, true), Ok(()));
    assert_eq!(ctx.vault, Some(Vault { total_deposited: 100 }));
    assert_eq!(ctx.depositor, Some(Depositor { total_deposited: 100 }));
    assert_eq!(ctx.depositor_address, key(1));
}

#[test]
fn deposit_sol_adds_to_existing_records() {
    let mut ctx = DepositSol {
        depositor_address: key(1),
        vault: Some(Vault { total_deposited: 150 }),
        depositor: Some(Depositor { total_deposited: 100 }),
    };
    assert_eq!(deposit_sol(&mut ctx, 25, true), Ok(()));
    assert_eq!(ctx.vault, Some(Vault { total_deposited: 175 }));
    assert_eq!(ctx.depositor, Some(Depositor { total_deposited: 125 }));
}

#[test]
fn deposit_sol_failed_transfer_keeps_records() {
    let mut ctx = DepositSol {
        depositor_address: key(3),
        vault: Some(Vault { total_deposited: 150 }),
        depositor: None,
    };
    assert_eq!(deposit_sol(&mut ctx, 20, false), Err(DepositError::TransferFailed));
    assert_eq!(ctx.vault, Some(Vault { total_deposited: 150 }));
    assert_eq!(ctx.depositor, None);
}

#[test]
fn deposit_sol_depositor_overflow() {
    let mut ctx = DepositSol {
        depositor_address: key(3),
        vault: Some(Vault { total_deposited: 0 }),
        depositor: Some(Depositor { total_deposited: u64::MAX }),
    };
    assert_eq!(deposit_sol(&mut ctx, 1, true), Err(DepositError::Overflow));
    assert_eq!(ctx.vault, Some(Vault { total_deposited: 0 }));
    assert_eq!(ctx.depositor, Some(Depositor { total_deposited: u64::MAX }));
}

#[test]
fn depositor_address_is_derived_not_the_payer_key() {
    let ledger = Ledger::new(PROGRAM);
    let a = key(1);
    let b = key(2);
    let address_a = ledger.depositor_address(&a).unwrap();
    let address_b = ledger.depositor_address(&b).unwrap();
    assert_ne!(address_a, a);
    assert_ne!(address_a, address_b);
    assert_eq!(ledger.depositor_address(&a), Some(address_a));
    let other = Ledger::new([8u8; 32]);
    assert_ne!(other.depositor_address(&a), Some(address_a));
}

#[test]
fn payer_deposit_lands_at_derived_address() {
    let mut ledger = Ledger::new(PROGRAM);
    let a = key(1);
    assert_eq!(ledger.deposit(&a, 100, true), Ok(()));
    let address = ledger.depositor_address(&a).unwrap();
    assert_eq!(ledger.depositor_at(&address), Some(Depositor { total_deposited: 100 }));
    assert_eq!(ledger.depositor_at(&a), None);
}

#[test]
fn depositor_address_matches_the_ledger_derivation() {
    let program = anchor_lang::prelude::Pubkey::new_from_array(PROGRAM);
    let payer = key(1);
    let (expected, _bump) =
        anchor_lang::prelude::Pubkey::find_program_address(&[b"depositor", &payer], &program);
    let ledger = Ledger::new(PROGRAM);
    assert_eq!(ledger.depositor_address(&payer), Some(expected.to_bytes()));
}

#[test]
fn same_key_compares_every_byte() {
    let a = key(1);
    let mut b = key(1);
    assert!(same_key(&a, &b));
    b[31] = 2;
    assert!(!same_key(&a, &b));
    b[31] = 1;
    b[0] = 0;
    assert!(!same_key(&a, &b));
}
