//! A deposit vault: one singleton record that accumulates every deposit, and
//! one record per depositor, at an address derived from the payer's key, that
//! accumulates that depositor's deposits. Either a deposit is recorded in both
//! counters or nothing changes.

mod accounts;
mod address;
mod laws;
mod ledger;

pub use accounts::{
    deposit_fits, deposit_sol, depositor_total, total_or_zero, vault_total, DepositError,
    DepositSol, Depositor, Vault,
};
pub use address::{program_address_of, same_key, DEPOSITOR_LABEL};
pub use laws::{
    credited_all, lemma_deposit_adds_amount, lemma_first_deposit_creates_record,
    lemma_repeat_deposit_updates_record, lemma_vault_from_empty,
    lemma_vault_total_is_sum_of_deposits, sum_of_amounts,
};
pub use ledger::{credit_fits, credited, depositor_at, Ledger, LedgerView};
