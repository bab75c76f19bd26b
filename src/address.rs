use vstd::prelude::*;
use crate::host::{find_program_address, program_address_of};
use crate::key::Key;

verus! {

/// The seed the counter's address is derived from: the bytes of `"counter"`.
pub open spec fn counter_seed() -> Seq<u8> {
    seq![99u8, 111u8, 117u8, 110u8, 116u8, 101u8, 114u8]
}

/// The address of the counter of the program `program_id`, where one exists.
pub open spec fn counter_address_of(program_id: Seq<u8>) -> Option<Seq<u8>> {
    match program_address_of(counter_seed(), program_id) {
        Some((address, _)) => Some(address),
        None => None,
    }
}

/// The view of an optional key.
pub open spec fn key_view(k: Option<Key>) -> Option<Seq<u8>> {
    match k {
        Some(k) => Some(k@),
        None => None,
    }
}

/// Whether `address` is the derived address `derived`.
pub open spec fn at_derived(derived: Option<Seq<u8>>, address: Key) -> bool {
    derived == Some(address@)
}

/// Derives the address of the counter of the program `program_id`.
pub fn counter_address(program_id: &Key) -> (r: Option<Key>)
    ensures
        key_view(r) == counter_address_of(program_id@),
{
    let seed: [u8; 7] = [99u8, 111u8, 117u8, 110u8, 116u8, 101u8, 114u8];
    assert(seed@ =~= counter_seed());
    match find_program_address(seed.as_slice(), program_id) {
        Some((address, _)) => Some(address),
        None => None,
    }
}

/// Tells whether `address` is the derived address `derived`.
pub fn is_derived_address(derived: Option<Key>, address: &Key) -> (r: bool)
    ensures
        r == at_derived(key_view(derived), *address),
{
    match derived {
        Some(k) => k == *address,
        None => false,
    }
}

} // verus!
