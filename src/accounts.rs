use vstd::prelude::*;

verus! {

/// The singleton vault record: everything ever deposited into the vault.
#[derive(Clone, Copy, Debug, PartialEq, Eq, Structural)]
pub struct Vault {
    pub total_deposited: u64,
}

/// One depositor's record: everything that depositor has deposited.
#[derive(Clone, Copy, Debug, PartialEq, Eq, Structural)]
pub struct Depositor {
    pub total_deposited: u64,
}

/// Why a deposit was refused. A refused deposit changes no record.
#[derive(Clone, Copy, Debug, PartialEq, Eq, Structural)]
pub enum DepositError {
    /// The ledger's transfer from the payer to the vault did not go through
    /// (for instance, the payer's balance is below the amount).
    TransferFailed,
    /// A counter would exceed `u64::MAX`; deposits never wrap around.
    Overflow,
    /// No program-derived address exists for the depositor's seeds.
    AddressUnavailable,
}

/// The records that one deposit works on: the depositor's derived address,
/// the vault and the depositor's record, each `None` while not yet created.
#[derive(Clone, Copy, Debug)]
pub struct DepositSol {
    pub depositor_address: [u8; 32],
    pub vault: Option<Vault>,
    pub depositor: Option<Depositor>,
}

/// A counter that does not exist yet stands for zero.
pub open spec fn total_or_zero(total: Option<u64>) -> int {
    match total {
        Some(t) => t as int,
        None => 0,
    }
}

pub open spec fn vault_total(v: Option<Vault>) -> Option<u64> {
    match v {
        Some(r) => Some(r.total_deposited),
        None => None,
    }
}

pub open spec fn depositor_total(d: Option<Depositor>) -> Option<u64> {
    match d {
        Some(r) => Some(r.total_deposited),
        None => None,
    }
}

/// Both counters can take `amount` without exceeding `u64::MAX`.
pub open spec fn deposit_fits(ctx: DepositSol, amount: u64) -> bool {
    &&& total_or_zero(vault_total(ctx.vault)) + amount <= u64::MAX
    &&& total_or_zero(depositor_total(ctx.depositor)) + amount <= u64::MAX
}

fn current_total(total: Option<u64>) -> (r: u64)
    ensures
        r == total_or_zero(total),
{
    match total {
        Some(t) => t,
        None => 0,
    }
}

/// Records a deposit of `amount` whose transfer from the payer to the vault
/// went through when `transferred` holds. Missing records are created; both
/// counters grow by `amount`. On any error nothing changes.
pub fn deposit_sol(ctx: &mut DepositSol, amount: u64, transferred: bool) -> (r: Result<(), DepositError>)
    ensures
        r is Ok <==> transferred && deposit_fits(*old(ctx), amount),
        r == Err::<(), DepositError>(DepositError::TransferFailed) <==> !transferred,
        r == Err::<(), DepositError>(DepositError::Overflow) <==> transferred && !deposit_fits(*old(ctx), amount),
        r is Ok ==> final(ctx).depositor_address == old(ctx).depositor_address
            && final(ctx).vault == Some(Vault {
                total_deposited: (total_or_zero(vault_total(old(ctx).vault)) + amount) as u64,
            })
            && final(ctx).depositor == Some(Depositor {
                total_deposited: (total_or_zero(depositor_total(old(ctx).depositor)) + amount) as u64,
            }),
        r is Err ==> *final(ctx) == *old(ctx),
{
    if !transferred {
        return Err(DepositError::TransferFailed);
    }
    let vault_before = current_total(match ctx.vault {
        Some(v) => Some(v.total_deposited),
        None => None,
    });
    let depositor_before = current_total(match ctx.depositor {
        Some(d) => Some(d.total_deposited),
        None => None,
    });
    let vault_after = vault_before.checked_add(amount);
    let depositor_after = depositor_before.checked_add(amount);
    match (vault_after, depositor_after) {
        (Some(v), Some(d)) => {
            ctx.vault = Some(Vault { total_deposited: v });
            ctx.depositor = Some(Depositor { total_deposited: d });
            Ok(())
        },
        _ => Err(DepositError::Overflow),
    }
}

} // verus!
