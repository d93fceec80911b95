use vstd::prelude::*;

use crate::accounts::total_or_zero;
use crate::ledger::{credit_fits, credited, depositor_at, LedgerView};

verus! {

/// The view after crediting each `(address, amount)` of `deposits` in turn.
pub open spec fn credited_all(start: LedgerView, deposits: Seq<(Seq<u8>, u64)>) -> LedgerView
    decreases deposits.len(),
{
    if deposits.len() == 0 {
        start
    } else {
        let last = deposits.last();
        credited(credited_all(start, deposits.drop_last()), last.0, last.1)
    }
}

/// The sum of the amounts of `deposits`.
pub open spec fn sum_of_amounts(deposits: Seq<(Seq<u8>, u64)>) -> int
    decreases deposits.len(),
{
    if deposits.len() == 0 {
        0
    } else {
        sum_of_amounts(deposits.drop_last()) + deposits.last().1
    }
}

/// The vault's total is what it held before plus the sum of every amount
/// deposited since, whoever deposited it.
pub proof fn lemma_vault_total_is_sum_of_deposits(
    start: LedgerView,
    deposits: Seq<(Seq<u8>, u64)>,
)
    requires
        total_or_zero(start.vault) + sum_of_amounts(deposits) <= u64::MAX,
    ensures
        total_or_zero(credited_all(start, deposits).vault) == total_or_zero(start.vault)
            + sum_of_amounts(deposits),
        deposits.len() > 0 ==> credited_all(start, deposits).vault is Some,
    decreases deposits.len(),
{
    if deposits.len() > 0 {
        let rest = deposits.drop_last();
        lemma_sum_of_amounts_nonnegative(rest);
        lemma_vault_total_is_sum_of_deposits(start, rest);
    }
}

proof fn lemma_sum_of_amounts_nonnegative(deposits: Seq<(Seq<u8>, u64)>)
    ensures
        sum_of_amounts(deposits) >= 0,
    decreases deposits.len(),
{
    if deposits.len() > 0 {
        lemma_sum_of_amounts_nonnegative(deposits.drop_last());
    }
}

/// Starting from no vault, the vault's total is the sum of every amount
/// deposited, and the vault exists once anything was deposited.
pub proof fn lemma_vault_from_empty(deposits: Seq<(Seq<u8>, u64)>)
    requires
        sum_of_amounts(deposits) <= u64::MAX,
    ensures
        deposits.len() == 0 ==> credited_all(
            LedgerView { vault: None, depositors: Map::empty() },
            deposits,
        ).vault is None,
        deposits.len() > 0 ==> credited_all(
            LedgerView { vault: None, depositors: Map::empty() },
            deposits,
        ).vault == Some(sum_of_amounts(deposits) as u64),
{
    let start = LedgerView { vault: None, depositors: Map::empty() };
    lemma_vault_total_is_sum_of_deposits(start, deposits);
}

/// A deposit that fits adds exactly its amount to the vault's total and to
/// the total of the depositor record at its address.
pub proof fn lemma_deposit_adds_amount(v: LedgerView, address: Seq<u8>, amount: u64)
    requires
        credit_fits(v, address, amount),
    ensures
        total_or_zero(credited(v, address, amount).vault) == total_or_zero(v.vault) + amount,
        total_or_zero(depositor_at(credited(v, address, amount), address)) == total_or_zero(
            depositor_at(v, address),
        ) + amount,
{
}

/// A first deposit at an address creates the record there with the amount
/// as its total; no other record changes.
pub proof fn lemma_first_deposit_creates_record(v: LedgerView, address: Seq<u8>, amount: u64)
    requires
        !v.depositors.contains_key(address),
    ensures
        depositor_at(credited(v, address, amount), address) == Some(amount),
        credited(v, address, amount).depositors.dom() == v.depositors.dom().insert(address),
        forall|k: Seq<u8>|
            k != address ==> #[trigger] depositor_at(credited(v, address, amount), k)
                == depositor_at(v, k),
{
}

/// A further deposit at an address creates no record: it adds the amount to
/// the record that is there, and no other record changes.
pub proof fn lemma_repeat_deposit_updates_record(v: LedgerView, address: Seq<u8>, amount: u64)
    requires
        v.depositors.contains_key(address),
        v.depositors[address] + amount <= u64::MAX,
    ensures
        depositor_at(credited(v, address, amount), address) == Some(
            (v.depositors[address] + amount) as u64,
        ),
        credited(v, address, amount).depositors.dom() == v.depositors.dom(),
        forall|k: Seq<u8>|
            k != address ==> #[trigger] depositor_at(credited(v, address, amount), k)
                == depositor_at(v, k),
{
    assert(credited(v, address, amount).depositors.dom() =~= v.depositors.dom());
}

} // verus!
