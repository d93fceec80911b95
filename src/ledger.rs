use vstd::prelude::*;

use crate::accounts::{
    deposit_sol, depositor_total, total_or_zero, vault_total, DepositError,
    DepositSol, Depositor, Vault,
};
use crate::address::{find_program_address, program_address_of, same_key, DEPOSITOR_LABEL};

verus! {

/// What the records of a ledger hold: the vault's total, `None` until the
/// vault exists, and each depositor record's total by its address.
pub ghost struct LedgerView {
    pub vault: Option<u64>,
    pub depositors: Map<Seq<u8>, u64>,
}

/// The view after a deposit of `amount` at `address`: the vault and the
/// record at `address` exist and each has grown by `amount`.
pub open spec fn credited(v: LedgerView, address: Seq<u8>, amount: u64) -> LedgerView {
    LedgerView {
        vault: Some((total_or_zero(v.vault) + amount) as u64),
        depositors: v.depositors.insert(
            address,
            (total_or_zero(depositor_at(v, address)) + amount) as u64,
        ),
    }
}

/// The total of the record at `address`, if it exists.
pub open spec fn depositor_at(v: LedgerView, address: Seq<u8>) -> Option<u64> {
    if v.depositors.contains_key(address) {
        Some(v.depositors[address])
    } else {
        None
    }
}

/// Both counters can take `amount` at `address` without exceeding `u64::MAX`.
pub open spec fn credit_fits(v: LedgerView, address: Seq<u8>, amount: u64) -> bool {
    &&& total_or_zero(v.vault) + amount <= u64::MAX
    &&& total_or_zero(depositor_at(v, address)) + amount <= u64::MAX
}

/// A depositor record stored under its derived address.
#[derive(Clone, Copy, Debug)]
pub struct DepositorAccount {
    pub address: [u8; 32],
    pub record: Depositor,
}

/// The program's records: the vault and the depositor records, keyed by the
/// address derived from each payer's key.
pub struct Ledger {
    program_id: [u8; 32],
    vault: Option<Vault>,
    depositors: Vec<DepositorAccount>,
    model: Ghost<Map<Seq<u8>, u64>>,
}

impl Ledger {
    /// The vault's total and each depositor record's total by its address.
    pub closed spec fn view(&self) -> LedgerView {
        LedgerView { vault: vault_total(self.vault), depositors: self.model@ }
    }

    /// The program's id, under which depositor addresses are derived.
    pub closed spec fn program(&self) -> Seq<u8> {
        self.program_id@
    }

    /// Depositor addresses are unique, and the records are what the view says.
    pub closed spec fn wf(&self) -> bool {
        &&& forall|i: int, j: int|
            0 <= i < j < self.depositors@.len() ==> self.depositors@[i].address@
                != self.depositors@[j].address@
        &&& forall|i: int|
            #![trigger self.depositors@[i]]
            0 <= i < self.depositors@.len() ==> {
                &&& self.model@.contains_key(self.depositors@[i].address@)
                &&& self.model@[self.depositors@[i].address@]
                    == self.depositors@[i].record.total_deposited
            }
        &&& forall|k: Seq<u8>|
            self.model@.contains_key(k) ==> exists|i: int|
                0 <= i < self.depositors@.len() && self.depositors@[i].address@ == k
    }

    /// An empty ledger of the program `program_id`: no vault, no depositor.
    pub fn new(program_id: [u8; 32]) -> (r: Ledger)
        ensures
            r.wf(),
            r.program() == program_id@,
            r@.vault is None,
            r@.depositors == Map::<Seq<u8>, u64>::empty(),
    {
        Ledger {
            program_id,
            vault: None,
            depositors: Vec::new(),
            model: Ghost(Map::empty()),
        }
    }

    /// The index of the record at `address`, if there is one.
    fn find(&self, address: &[u8; 32]) -> (r: Option<usize>)
        requires
            self.wf(),
        ensures
            match r {
                Some(i) => i < self.depositors@.len() && self.depositors@[i as int].address@
                    == address@,
                None => !self@.depositors.contains_key(address@),
            },
    {
        let mut i: usize = 0;
        while i < self.depositors.len()
            invariant
                self.wf(),
                i <= self.depositors@.len(),
                forall|j: int| 0 <= j < i ==> self.depositors@[j].address@ != address@,
            decreases self.depositors@.len() - i,
        {
            if same_key(&self.depositors[i].address, address) {
                return Some(i);
            }
            i = i + 1;
        }
        None
    }

    /// Records a deposit of `amount` at the depositor address `address`,
    /// whose transfer went through when `transferred` holds. A missing vault
    /// or depositor record is created; on any error nothing changes.
    pub fn deposit_at(&mut self, address: [u8; 32], amount: u64, transferred: bool) -> (r: Result<
        (),
        DepositError,
    >)
        requires
            old(self).wf(),
        ensures
            final(self).wf(),
            final(self).program() == old(self).program(),
            r is Ok <==> transferred && credit_fits(old(self)@, address@, amount),
            r == Err::<(), DepositError>(DepositError::TransferFailed) <==> !transferred,
            r == Err::<(), DepositError>(DepositError::Overflow) <==> transferred
                && !credit_fits(old(self)@, address@, amount),
            r is Ok ==> final(self)@ == credited(old(self)@, address@, amount),
            r is Err ==> final(self)@ == old(self)@,
    {
        let index = self.find(&address);
        let mut ctx = DepositSol {
            depositor_address: address,
            vault: self.vault,
            depositor: match index {
                Some(i) => Some(self.depositors[i].record),
                None => None,
            },
        };
        let r = deposit_sol(&mut ctx, amount, transferred);
        if r.is_err() {
            return r;
        }
        let record = match ctx.depositor {
            Some(d) => d,
            None => Depositor { total_deposited: 0 },
        };
        let account = DepositorAccount { address, record };
        let ghost before = self.depositors@;
        self.vault = ctx.vault;
        self.model = Ghost(self.model@.insert(address@, record.total_deposited));
        match index {
            Some(i) => {
                self.depositors.set(i, account);
                assert forall|k: Seq<u8>| self.model@.contains_key(k) implies exists|j: int|
                    0 <= j < self.depositors@.len() && self.depositors@[j].address@ == k by {
                    if k != address@ {
                        let j = choose|j: int|
                            0 <= j < before.len() && before[j].address@ == k;
                        assert(self.depositors@[j] == before[j]);
                    } else {
                        assert(self.depositors@[i as int].address@ == k);
                    }
                }
            },
            None => {
                self.depositors.push(account);
                assert forall|k: Seq<u8>| self.model@.contains_key(k) implies exists|j: int|
                    0 <= j < self.depositors@.len() && self.depositors@[j].address@ == k by {
                    if k != address@ {
                        let j = choose|j: int|
                            0 <= j < before.len() && before[j].address@ == k;
                        assert(self.depositors@[j] == before[j]);
                    } else {
                        assert(self.depositors@[before.len() as int].address@ == k);
                    }
                }
            },
        }
        assert(self@.depositors =~= credited(old(self)@, address@, amount).depositors);
        r
    }

    /// Records a deposit of `amount` by the payer `payer`, whose transfer
    /// went through when `transferred` holds. The depositor record is the one
    /// at the address derived from the depositor label and `payer` under the
    /// program's id; where no such address exists the deposit is refused.
    pub fn deposit(&mut self, payer: &[u8; 32], amount: u64, transferred: bool) -> (r: Result<
        (),
        DepositError,
    >)
        requires
            old(self).wf(),
        ensures
            final(self).wf(),
            final(self).program() == old(self).program(),
            match program_address_of(DEPOSITOR_LABEL@, payer@, old(self).program()) {
                None => r == Err::<(), DepositError>(DepositError::AddressUnavailable)
                    && final(self)@ == old(self)@,
                Some(address) => {
                    &&& r is Ok <==> transferred && credit_fits(old(self)@, address, amount)
                    &&& r == Err::<(), DepositError>(DepositError::TransferFailed)
                        <==> !transferred
                    &&& r == Err::<(), DepositError>(DepositError::Overflow) <==> transferred
                        && !credit_fits(old(self)@, address, amount)
                    &&& r is Ok ==> final(self)@ == credited(old(self)@, address, amount)
                    &&& r is Err ==> final(self)@ == old(self)@
                },
            },
    {
        let label = DEPOSITOR_LABEL;
        match find_program_address(label.as_slice(), payer, &self.program_id) {
            Some(address) => self.deposit_at(address, amount, transferred),
            None => Err(DepositError::AddressUnavailable),
        }
    }

    /// The vault record, if it exists.
    pub fn vault(&self) -> (r: Option<Vault>)
        ensures
            vault_total(r) == self@.vault,
    {
        self.vault
    }

    /// The depositor record at `address`, if it exists.
    pub fn depositor_at(&self, address: &[u8; 32]) -> (r: Option<Depositor>)
        requires
            self.wf(),
        ensures
            depositor_total(r) == depositor_at(self@, address@),
    {
        match self.find(address) {
            Some(i) => Some(self.depositors[i].record),
            None => None,
        }
    }

    /// The address of the payer's depositor record, if one can be derived.
    pub fn depositor_address(&self, payer: &[u8; 32]) -> (r: Option<[u8; 32]>)
        ensures
            match r {
                Some(a) => program_address_of(DEPOSITOR_LABEL@, payer@, self.program()) == Some(a@),
                None => program_address_of(DEPOSITOR_LABEL@, payer@, self.program()) is None,
            },
    {
        let label = DEPOSITOR_LABEL;
        find_program_address(label.as_slice(), payer, &self.program_id)
    }

    /// The payer's depositor record, if its address exists and it was created.
    pub fn depositor(&self, payer: &[u8; 32]) -> (r: Option<Depositor>)
        requires
            self.wf(),
        ensures
            match program_address_of(DEPOSITOR_LABEL@, payer@, self.program()) {
                None => r is None,
                Some(address) => depositor_total(r) == depositor_at(self@, address),
            },
    {
        match self.depositor_address(payer) {
            Some(address) => self.depositor_at(&address),
            None => None,
        }
    }
}

} // verus!
