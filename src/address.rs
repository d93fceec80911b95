use vstd::prelude::*;

verus! {

/// The seed label of every depositor record's address.
pub const DEPOSITOR_LABEL: [u8; 9] = [100u8, 101, 112, 111, 115, 105, 116, 111, 114];

/// The program-derived address for the seeds `label` and `key` under the
/// program `program_id`; `None` where no bump seed gives an address.
pub uninterp spec fn program_address_of(label: Seq<u8>, key: Seq<u8>, program_id: Seq<u8>) -> Option<Seq<u8>>;

/// Relies on `Pubkey::try_find_program_address` with the seeds `label` and
/// `key`: the result depends on those bytes and the program id alone, and is
/// a 32-byte key.
#[verifier::external_body]
pub(crate) fn find_program_address(label: &[u8], key: &[u8; 32], program_id: &[u8; 32]) -> (r: Option<[u8; 32]>)
    ensures
        match r {
            Some(a) => program_address_of(label@, key@, program_id@) == Some(a@),
            None => program_address_of(label@, key@, program_id@) is None,
        },
{
    let program = anchor_lang::prelude::Pubkey::new_from_array(*program_id);
    anchor_lang::prelude::Pubkey::try_find_program_address(&[label, key.as_slice()], &program)
        .map(|(address, _bump)| address.to_bytes())
}

/// Whether two 32-byte keys are the same.
pub fn same_key(a: &[u8; 32], b: &[u8; 32]) -> (r: bool)
    ensures
        r == (a@ == b@),
{
    broadcast use vstd::array::group_array_axioms;
    let mut i: usize = 0;
    while i < 32
        invariant
            i <= 32,
            a@.len() == 32,
            b@.len() == 32,
            forall|j: int| 0 <= j < i ==> a@[j] == b@[j],
        decreases 32 - i,
    {
        if a[i] != b[i] {
            return false;
        }
        i = i + 1;
    }
    assert(a@ =~= b@);
    true
}

} // verus!
