//! The extended token format. Its records may be exact base records, or longer buffers whose
//! byte at the base account length tags the record's kind.

use vstd::prelude::*;

use crate::token::{
    self, account_initialized, base_account_valid, base_mint_valid, is_initialized_account,
    is_initialized_mint, mint_initialized, GenericTokenAccount, GenericTokenMint,
    SPL_TOKEN_ACCOUNT_LENGTH,
};
use crate::Address;

verus! {

/// Bytes of the extended token program's id.
pub const ID_BYTES: [u8; 32] = [
    6, 221, 246, 225, 238, 117, 143, 222, 24, 66, 93, 188, 228, 108, 205, 218, 182, 26, 252, 77,
    131, 185, 13, 39, 254, 189, 249, 40, 216, 161, 139, 252,
];

/// Program id of the extended token program.
pub fn id() -> (r: Address)
    ensures
        r.bytes == ID_BYTES,
{
    Address { bytes: ID_BYTES }
}

/// Kind tag of an extended account record.
pub const ACCOUNTTYPE_ACCOUNT: u8 = 2;

/// Kind tag of an extended mint record.
pub const ACCOUNTTYPE_MINT: u8 = 1;

/// Length of a multisig record. No extended account or mint has exactly this length, so the
/// three kinds stay apart.
pub const SPL_TOKEN_MULTISIG_LENGTH: usize = 355;

/// A longer-than-base buffer, not of multisig length, whose kind tag is `tag`.
pub open spec fn extended_with_tag(data: Seq<u8>, tag: u8) -> bool {
    &&& data.len() > SPL_TOKEN_ACCOUNT_LENGTH
    &&& data.len() != SPL_TOKEN_MULTISIG_LENGTH
    &&& data[SPL_TOKEN_ACCOUNT_LENGTH as int] == tag
}

/// A valid extended-format account: a valid base account, or a tagged, initialized extended
/// account.
pub open spec fn extended_account_valid(data: Seq<u8>) -> bool {
    base_account_valid(data) || (extended_with_tag(data, ACCOUNTTYPE_ACCOUNT) && account_initialized(
        data,
    ))
}

/// A valid extended-format mint: a valid base mint, or a tagged, initialized extended mint. An
/// extended mint is padded to the base account length before its tag, so the tag sits where
/// an extended account's does.
pub open spec fn extended_mint_valid(data: Seq<u8>) -> bool {
    base_mint_valid(data) || (extended_with_tag(data, ACCOUNTTYPE_MINT) && mint_initialized(data))
}

/// Account records of the extended format.
pub struct Account;

impl GenericTokenAccount for Account {
    open spec fn valid_account_spec(data: Seq<u8>) -> bool {
        extended_account_valid(data)
    }

    proof fn lemma_valid_account_len(data: Seq<u8>) {
    }

    fn valid_account_data(account_data: &[u8]) -> (r: bool) {
        token::Account::valid_account_data(account_data) || (account_data.len()
            > SPL_TOKEN_ACCOUNT_LENGTH && account_data.len() != SPL_TOKEN_MULTISIG_LENGTH
            && ACCOUNTTYPE_ACCOUNT == account_data[SPL_TOKEN_ACCOUNT_LENGTH]
            && is_initialized_account(account_data))
    }
}

/// Mint records of the extended format.
pub struct Mint;

impl GenericTokenMint for Mint {
    open spec fn valid_mint_spec(data: Seq<u8>) -> bool {
        extended_mint_valid(data)
    }

    proof fn lemma_valid_mint_len(data: Seq<u8>) {
    }

    // The length compared is the account length, not the mint length: an extended mint is
    // padded to the account length, so an account cannot pass for a mint.
    fn valid_account_data(account_data: &[u8]) -> (r: bool) {
        token::Mint::valid_account_data(account_data) || (account_data.len()
            > SPL_TOKEN_ACCOUNT_LENGTH && account_data.len() != SPL_TOKEN_MULTISIG_LENGTH
            && ACCOUNTTYPE_MINT == account_data[SPL_TOKEN_ACCOUNT_LENGTH] && is_initialized_mint(
            account_data,
        ))
    }
}

} // verus!
