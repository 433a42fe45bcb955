//! Minimal readers for token account and mint records, without a dependency on the full
//! token program crates. A caller may use the per-format capability traits directly, picking
//! the format that matches the record's owning program, or call `generic_token::Account::unpack`
//! and `generic_token::Mint::unpack`, which choose the format from the program id.
//!
//! Only the fields needed for balances and ownership are read: mint, owner and amount of an
//! account; supply and decimals of a mint.

use vstd::prelude::*;

pub mod generic_token;
pub mod token;
pub mod token_2022;

verus! {

/// Number of bytes in an address (a program id, a mint, an owner).
pub const ADDRESS_BYTES: usize = 32;

/// A 32-byte address, as stored in a record or used as a program id.
#[derive(Debug, Clone, Copy, Default, PartialEq, Eq, Hash)]
pub struct Address {
    pub bytes: [u8; 32],
}

impl Address {
    /// The address with the given bytes.
    pub fn new_from_array(bytes: [u8; 32]) -> (r: Address)
        ensures
            r.bytes@ == bytes@,
    {
        Address { bytes }
    }

    /// The address's bytes.
    pub fn to_bytes(&self) -> (r: [u8; 32])
        ensures
            r@ == self.bytes@,
    {
        self.bytes
    }
}

/// Whether two addresses hold the same bytes.
pub fn address_eq(a: &Address, b: &Address) -> (r: bool)
    ensures
        r == (a.bytes@ == b.bytes@),
{
    let mut i: usize = 0;
    while i < ADDRESS_BYTES
        invariant
            i <= ADDRESS_BYTES,
            forall|j: int| 0 <= j < i ==> a.bytes@[j] == b.bytes@[j],
        decreases ADDRESS_BYTES - i,
    {
        if a.bytes[i] != b.bytes[i] {
            return false;
        }
        i = i + 1;
    }
    assert(a.bytes@ =~= b.bytes@);
    true
}

/// Whether `program_id` is one of the known token program ids.
pub open spec fn is_known_id(program_id: Seq<u8>) -> bool {
    program_id == token::ID_BYTES@ || program_id == token_2022::ID_BYTES@
}

/// All known token program ids: the base program's, then the extended program's.
pub fn spl_token_ids() -> (r: Vec<Address>)
    ensures
        r@.len() == 2,
        r@[0].bytes == token::ID_BYTES,
        r@[1].bytes == token_2022::ID_BYTES,
{
    vec![token::id(), token_2022::id()]
}

/// Whether `program_id` is a known token program id.
pub fn is_known_spl_token_id(program_id: &Address) -> (r: bool)
    ensures
        r == is_known_id(program_id.bytes@),
{
    address_eq(program_id, &token::id()) || address_eq(program_id, &token_2022::id())
}

} // verus!
