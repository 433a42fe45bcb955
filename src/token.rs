//! The base token record layout: fixed offsets, raw readers, the account and mint capability
//! traits, and the base format, whose records have an exact length.

use vstd::prelude::*;

use crate::{Address, ADDRESS_BYTES};

pub mod native_mint;

verus! {

/// Bytes of the base token program's id.
pub const ID_BYTES: [u8; 32] = [
    6, 221, 246, 225, 215, 101, 161, 147, 217, 203, 225, 70, 206, 235, 121, 172, 28, 180, 133, 237,
    95, 91, 55, 145, 58, 140, 245, 133, 126, 255, 0, 169,
];

/// Program id of the base token program.
pub fn id() -> (r: Address)
    ensures
        r.bytes == ID_BYTES,
{
    Address { bytes: ID_BYTES }
}

/*
    Base account record (165 bytes):
        mint: address, owner: address, amount: u64, delegate: optional address,
        state: account state, is_native: optional u64, delegated_amount: u64,
        close_authority: optional address
*/
pub const SPL_TOKEN_ACCOUNT_MINT_OFFSET: usize = 0;

pub const SPL_TOKEN_ACCOUNT_OWNER_OFFSET: usize = 32;

pub const SPL_TOKEN_ACCOUNT_AMOUNT_OFFSET: usize = 64;

pub const SPL_TOKEN_ACCOUNT_STATE_OFFSET: usize = 108;

pub const SPL_TOKEN_ACCOUNT_LENGTH: usize = 165;

/*
    Base mint record (82 bytes):
        mint_authority: optional address, supply: u64, decimals: u8, is_initialized: bool,
        freeze_authority: optional address
*/
pub const SPL_TOKEN_MINT_SUPPLY_OFFSET: usize = 36;

pub const SPL_TOKEN_MINT_DECIMALS_OFFSET: usize = 44;

pub const SPL_TOKEN_MINT_IS_INITIALIZED_OFFSET: usize = 45;

pub const SPL_TOKEN_MINT_LENGTH: usize = 82;

/// Whether the flag byte at `offset` is set; a position past the end of `data` reads as unset.
pub open spec fn flag_set(data: Seq<u8>, offset: int) -> bool {
    0 <= offset < data.len() && data[offset] != 0
}

/// The unsigned value of the eight bytes of `data` starting at `at`, least significant first.
pub open spec fn le_u64_at(data: Seq<u8>, at: int) -> int {
    data[at] as int + data[at + 1] as int * 0x100 + data[at + 2] as int * 0x1_0000 + data[at + 3] as int
        * 0x100_0000 + data[at + 4] as int * 0x1_0000_0000 + data[at + 5] as int * 0x100_0000_0000
        + data[at + 6] as int * 0x1_0000_0000_0000 + data[at + 7] as int * 0x100_0000_0000_0000
}

/// The 32 bytes of `data` starting at `at`.
pub open spec fn address_at(data: Seq<u8>, at: int) -> Seq<u8> {
    data.subrange(at, at + ADDRESS_BYTES as int)
}

/// Mint address of an account record.
pub open spec fn account_mint(data: Seq<u8>) -> Seq<u8> {
    address_at(data, SPL_TOKEN_ACCOUNT_MINT_OFFSET as int)
}

/// Owner address of an account record.
pub open spec fn account_owner(data: Seq<u8>) -> Seq<u8> {
    address_at(data, SPL_TOKEN_ACCOUNT_OWNER_OFFSET as int)
}

/// Balance of an account record.
pub open spec fn account_amount(data: Seq<u8>) -> int {
    le_u64_at(data, SPL_TOKEN_ACCOUNT_AMOUNT_OFFSET as int)
}

/// Supply of a mint record.
pub open spec fn mint_supply(data: Seq<u8>) -> int {
    le_u64_at(data, SPL_TOKEN_MINT_SUPPLY_OFFSET as int)
}

/// Decimal count of a mint record.
pub open spec fn mint_decimals(data: Seq<u8>) -> u8 {
    data[SPL_TOKEN_MINT_DECIMALS_OFFSET as int]
}

/// Whether the state byte of an account record marks it initialized.
pub open spec fn account_initialized(data: Seq<u8>) -> bool {
    flag_set(data, SPL_TOKEN_ACCOUNT_STATE_OFFSET as int)
}

/// Whether the initialized byte of a mint record is set.
pub open spec fn mint_initialized(data: Seq<u8>) -> bool {
    flag_set(data, SPL_TOKEN_MINT_IS_INITIALIZED_OFFSET as int)
}

/// A valid base-format account: exactly the base account length, and initialized.
pub open spec fn base_account_valid(data: Seq<u8>) -> bool {
    data.len() == SPL_TOKEN_ACCOUNT_LENGTH && account_initialized(data)
}

/// A valid base-format mint: exactly the base mint length, and initialized.
pub open spec fn base_mint_valid(data: Seq<u8>) -> bool {
    data.len() == SPL_TOKEN_MINT_LENGTH && mint_initialized(data)
}

pub fn is_initialized_account(account_data: &[u8]) -> (r: bool)
    ensures
        r == account_initialized(account_data@),
{
    is_initialized_token_data(account_data, SPL_TOKEN_ACCOUNT_STATE_OFFSET)
}

pub fn is_initialized_mint(account_data: &[u8]) -> (r: bool)
    ensures
        r == mint_initialized(account_data@),
{
    is_initialized_token_data(account_data, SPL_TOKEN_MINT_IS_INITIALIZED_OFFSET)
}

/// Reads the flag byte at `offset`; a short buffer reads as unset rather than failing.
pub fn is_initialized_token_data(account_data: &[u8], offset: usize) -> (r: bool)
    ensures
        r == flag_set(account_data@, offset as int),
{
    if offset < account_data.len() {
        account_data[offset] != 0
    } else {
        false
    }
}

/// Reads the little-endian `u64` at `offset`. The caller has checked the length.
pub fn unpack_u64_unchecked(account_data: &[u8], offset: usize) -> (r: u64)
    requires
        offset + 8 <= account_data@.len(),
    ensures
        r == le_u64_at(account_data@, offset as int),
{
    let len = account_data.len();
    assert(offset + 8 <= len);
    let b = &account_data[offset..offset + 8];
    b[0] as u64 + b[1] as u64 * 0x100 + b[2] as u64 * 0x1_0000 + b[3] as u64 * 0x100_0000 + b[4] as u64
        * 0x1_0000_0000 + b[5] as u64 * 0x100_0000_0000 + b[6] as u64 * 0x1_0000_0000_0000
        + b[7] as u64 * 0x100_0000_0000_0000
}

/// Relies on bytemuck::from_bytes: a slice of exactly 32 bytes is read as a `[u8; 32]` holding
/// the same bytes. The array's alignment is 1, so only a length mismatch could fail.
#[verifier::external_body]
fn address_from_slice(bytes: &[u8]) -> (r: Address)
    requires
        bytes@.len() == ADDRESS_BYTES,
    ensures
        r.bytes@ == bytes@,
{
    Address { bytes: *bytemuck::from_bytes::<[u8; 32]>(bytes) }
}

/// A record format whose accounts use the base account layout. A format need only say which
/// buffers are valid accounts; the field readers come with the trait.
pub trait GenericTokenAccount {
    /// Which buffers this format accepts as initialized accounts.
    spec fn valid_account_spec(data: Seq<u8>) -> bool;

    /// Every valid account is long enough to hold the base account fields.
    proof fn lemma_valid_account_len(data: Seq<u8>)
        requires
            Self::valid_account_spec(data),
        ensures
            data.len() >= SPL_TOKEN_ACCOUNT_LENGTH,
    ;

    fn valid_account_data(account_data: &[u8]) -> (r: bool)
        ensures
            r == Self::valid_account_spec(account_data@),
    ;

    /// The mint address, if the buffer is a valid account.
    fn unpack_account_mint(account_data: &[u8]) -> (r: Option<Address>)
        ensures
            r.is_some() == Self::valid_account_spec(account_data@),
            r.is_some() ==> r.unwrap().bytes@ == account_mint(account_data@),
    {
        if Self::valid_account_data(account_data) {
            proof {
                Self::lemma_valid_account_len(account_data@);
            }
            Some(Self::unpack_account_mint_unchecked(account_data))
        } else {
            None
        }
    }

    /// The owner address, if the buffer is a valid account.
    fn unpack_account_owner(account_data: &[u8]) -> (r: Option<Address>)
        ensures
            r.is_some() == Self::valid_account_spec(account_data@),
            r.is_some() ==> r.unwrap().bytes@ == account_owner(account_data@),
    {
        if Self::valid_account_data(account_data) {
            proof {
                Self::lemma_valid_account_len(account_data@);
            }
            Some(Self::unpack_account_owner_unchecked(account_data))
        } else {
            None
        }
    }

    /// The balance, if the buffer is a valid account.
    fn unpack_account_amount(account_data: &[u8]) -> (r: Option<u64>)
        ensures
            r.is_some() == Self::valid_account_spec(account_data@),
            r.is_some() ==> r.unwrap() == account_amount(account_data@),
    {
        if Self::valid_account_data(account_data) {
            proof {
                Self::lemma_valid_account_len(account_data@);
            }
            Some(Self::unpack_account_amount_unchecked(account_data))
        } else {
            None
        }
    }

    /// The mint address. The caller has checked the length.
    fn unpack_account_mint_unchecked(account_data: &[u8]) -> (r: Address)
        requires
            account_data@.len() >= SPL_TOKEN_ACCOUNT_LENGTH,
        ensures
            r.bytes@ == account_mint(account_data@),
    {
        Self::unpack_pubkey_unchecked(account_data, SPL_TOKEN_ACCOUNT_MINT_OFFSET)
    }

    /// The owner address. The caller has checked the length.
    fn unpack_account_owner_unchecked(account_data: &[u8]) -> (r: Address)
        requires
            account_data@.len() >= SPL_TOKEN_ACCOUNT_LENGTH,
        ensures
            r.bytes@ == account_owner(account_data@),
    {
        Self::unpack_pubkey_unchecked(account_data, SPL_TOKEN_ACCOUNT_OWNER_OFFSET)
    }

    /// The balance. The caller has checked the length.
    fn unpack_account_amount_unchecked(account_data: &[u8]) -> (r: u64)
        requires
            account_data@.len() >= SPL_TOKEN_ACCOUNT_LENGTH,
        ensures
            r == account_amount(account_data@),
    {
        unpack_u64_unchecked(account_data, SPL_TOKEN_ACCOUNT_AMOUNT_OFFSET)
    }

    /// The address at `offset`. The caller has checked the length.
    fn unpack_pubkey_unchecked(account_data: &[u8], offset: usize) -> (r: Address)
        requires
            offset + ADDRESS_BYTES <= account_data@.len(),
        ensures
            r.bytes@ == address_at(account_data@, offset as int),
    {
        let len = account_data.len();
        assert(offset + ADDRESS_BYTES <= len);
        address_from_slice(&account_data[offset..offset + ADDRESS_BYTES])
    }
}

/// Account records of the base format.
pub struct Account;

impl Account {
    pub fn get_packed_len() -> (r: usize)
        ensures
            r == SPL_TOKEN_ACCOUNT_LENGTH,
    {
        SPL_TOKEN_ACCOUNT_LENGTH
    }
}

impl GenericTokenAccount for Account {
    open spec fn valid_account_spec(data: Seq<u8>) -> bool {
        base_account_valid(data)
    }

    proof fn lemma_valid_account_len(data: Seq<u8>) {
    }

    fn valid_account_data(account_data: &[u8]) -> (r: bool) {
        account_data.len() == SPL_TOKEN_ACCOUNT_LENGTH && is_initialized_account(account_data)
    }
}

/// A record format whose mints use the base mint layout. A format need only say which
/// buffers are valid mints; the field readers come with the trait.
pub trait GenericTokenMint {
    /// Which buffers this format accepts as initialized mints.
    spec fn valid_mint_spec(data: Seq<u8>) -> bool;

    /// Every valid mint is long enough to hold the base mint fields.
    proof fn lemma_valid_mint_len(data: Seq<u8>)
        requires
            Self::valid_mint_spec(data),
        ensures
            data.len() >= SPL_TOKEN_MINT_LENGTH,
    ;

    fn valid_account_data(account_data: &[u8]) -> (r: bool)
        ensures
            r == Self::valid_mint_spec(account_data@),
    ;

    /// The supply, if the buffer is a valid mint.
    fn unpack_mint_supply(account_data: &[u8]) -> (r: Option<u64>)
        ensures
            r.is_some() == Self::valid_mint_spec(account_data@),
            r.is_some() ==> r.unwrap() == mint_supply(account_data@),
    {
        if Self::valid_account_data(account_data) {
            proof {
                Self::lemma_valid_mint_len(account_data@);
            }
            Some(Self::unpack_mint_supply_unchecked(account_data))
        } else {
            None
        }
    }

    /// The decimal count, if the buffer is a valid mint.
    fn unpack_mint_decimals(account_data: &[u8]) -> (r: Option<u8>)
        ensures
            r.is_some() == Self::valid_mint_spec(account_data@),
            r.is_some() ==> r.unwrap() == mint_decimals(account_data@),
    {
        if Self::valid_account_data(account_data) {
            proof {
                Self::lemma_valid_mint_len(account_data@);
            }
            Some(Self::unpack_mint_decimals_unchecked(account_data))
        } else {
            None
        }
    }

    /// The supply. The caller has checked the length.
    fn unpack_mint_supply_unchecked(account_data: &[u8]) -> (r: u64)
        requires
            account_data@.len() >= SPL_TOKEN_MINT_LENGTH,
        ensures
            r == mint_supply(account_data@),
    {
        unpack_u64_unchecked(account_data, SPL_TOKEN_MINT_SUPPLY_OFFSET)
    }

    /// The decimal count. The caller has checked the length.
    fn unpack_mint_decimals_unchecked(account_data: &[u8]) -> (r: u8)
        requires
            account_data@.len() >= SPL_TOKEN_MINT_LENGTH,
        ensures
            r == mint_decimals(account_data@),
    {
        account_data[SPL_TOKEN_MINT_DECIMALS_OFFSET]
    }
}

/// Mint records of the base format.
pub struct Mint;

impl Mint {
    pub fn get_packed_len() -> (r: usize)
        ensures
            r == SPL_TOKEN_MINT_LENGTH,
    {
        SPL_TOKEN_MINT_LENGTH
    }
}

impl GenericTokenMint for Mint {
    open spec fn valid_mint_spec(data: Seq<u8>) -> bool {
        base_mint_valid(data)
    }

    proof fn lemma_valid_mint_len(data: Seq<u8>) {
    }

    fn valid_account_data(account_data: &[u8]) -> (r: bool) {
        account_data.len() == SPL_TOKEN_MINT_LENGTH && is_initialized_mint(account_data)
    }
}

} // verus!
