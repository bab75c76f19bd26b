use vstd::prelude::*;
use crate::key::Key;

verus! {

/// The address and bump that the program-derived-address search finds for one
/// seed under a program identifier, or `None` where the search finds none.
pub uninterp spec fn program_address_of(seed: Seq<u8>, program_id: Seq<u8>) -> Option<(Seq<u8>, u8)>;

/// Relies on `Pubkey::try_find_program_address` with the single seed `seed`:
/// its result is a function of the seed and the program identifier, and a seed
/// longer than 32 bytes yields `None`.
#[verifier::external_body]
pub(crate) fn find_program_address(seed: &[u8], program_id: &Key) -> (r: Option<(Key, u8)>)
    ensures
        match r {
            Some((k, bump)) => program_address_of(seed@, program_id@) == Some((k@, bump)),
            None => program_address_of(seed@, program_id@) is None,
        },
        seed@.len() > 32 ==> r is None,
{
    let program = anchor_lang::prelude::Pubkey::new_from_array(program_id.bytes);
    anchor_lang::prelude::Pubkey::try_find_program_address(&[seed], &program).map(
        |(k, bump)| (Key { bytes: k.to_bytes() }, bump),
    )
}

/// The rent-exemption minimum, in lamports, of an account holding `data_len`
/// bytes under the default rent schedule: 3480 lamports per byte-year over
/// 128 bytes of overhead plus the data, for two years.
pub open spec fn rent_exempt_minimum(data_len: nat) -> nat {
    (128 + data_len) * 6960
}

/// Relies on `Rent::minimum_balance` of `Rent::default()`: for data that fits
/// an account (at most 10 MiB) the product `(128 + data_len) * 3480` is exact in
/// a `u64` and in an `f64`, and doubling it is exact too.
#[verifier::external_body]
pub(crate) fn default_rent_minimum(data_len: usize) -> (r: u64)
    requires
        data_len <= 10 * 1024 * 1024,
    ensures
        r == rent_exempt_minimum(data_len as nat),
{
    anchor_lang::prelude::Rent::default().minimum_balance(data_len)
}

} // verus!
