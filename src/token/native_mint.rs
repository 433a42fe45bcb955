//! The native mint: its address, and its record as the base token program stores it.

use vstd::prelude::*;

use crate::token::{
    base_mint_valid, mint_decimals, mint_supply, SPL_TOKEN_MINT_DECIMALS_OFFSET,
    SPL_TOKEN_MINT_IS_INITIALIZED_OFFSET,
};
use crate::Address;

verus! {

/// Bytes of the native mint's address.
pub const ID_BYTES: [u8; 32] = [
    6, 155, 136, 87, 254, 171, 129, 132, 251, 104, 127, 99, 70, 24, 192, 53, 218, 196, 57, 220, 26,
    235, 59, 85, 152, 160, 240, 0, 0, 0, 0, 1,
];

/// Address of the native mint.
pub fn id() -> (r: Address)
    ensures
        r.bytes == ID_BYTES,
{
    Address { bytes: ID_BYTES }
}

/// The native mint's record as the base token program stores it: no mint authority, a supply
/// of 0, 9 decimals, initialized, and no freeze authority.
pub fn account_data() -> (r: [u8; 82])
    ensures
        forall|i: int|
            0 <= i < 82 ==> #[trigger] r@[i] == if i == SPL_TOKEN_MINT_DECIMALS_OFFSET {
                9u8
            } else if i == SPL_TOKEN_MINT_IS_INITIALIZED_OFFSET {
                1u8
            } else {
                0u8
            },
        base_mint_valid(r@),
        mint_supply(r@) == 0,
        mint_decimals(r@) == 9,
{
    let mut data = [0u8; 82];
    data.set(SPL_TOKEN_MINT_DECIMALS_OFFSET, 9);
    data.set(SPL_TOKEN_MINT_IS_INITIALIZED_OFFSET, 1);
    data
}

} // verus!
