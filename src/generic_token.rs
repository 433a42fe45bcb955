//! Format-independent account and mint values, read from a buffer under the format that its
//! program id selects. The caller need not know which token program owns the buffer.

use vstd::prelude::*;

use crate::token::{
    self, account_amount, account_mint, account_owner, mint_decimals, mint_supply,
    GenericTokenAccount, GenericTokenMint,
};
use crate::token_2022::{self, extended_account_valid, extended_mint_valid};
use crate::{address_eq, Address};

verus! {

/// Whether `data` is a valid account under the format that `program_id` selects; an unknown
/// program id selects none.
pub open spec fn account_valid_for(data: Seq<u8>, program_id: Seq<u8>) -> bool {
    if program_id == token::ID_BYTES@ {
        token::base_account_valid(data)
    } else if program_id == token_2022::ID_BYTES@ {
        extended_account_valid(data)
    } else {
        false
    }
}

/// Whether `data` is a valid mint under the format that `program_id` selects; an unknown
/// program id selects none.
pub open spec fn mint_valid_for(data: Seq<u8>, program_id: Seq<u8>) -> bool {
    if program_id == token::ID_BYTES@ {
        token::base_mint_valid(data)
    } else if program_id == token_2022::ID_BYTES@ {
        extended_mint_valid(data)
    } else {
        false
    }
}

/// What reading `data` as an account under `program_id` gives: mint, owner and amount, or
/// nothing.
pub open spec fn unpacked_account(data: Seq<u8>, program_id: Seq<u8>) -> Option<
    (Seq<u8>, Seq<u8>, int),
> {
    if account_valid_for(data, program_id) {
        Some((account_mint(data), account_owner(data), account_amount(data)))
    } else {
        None
    }
}

/// What reading `data` as a mint under `program_id` gives: supply and decimals, or nothing.
pub open spec fn unpacked_mint(data: Seq<u8>, program_id: Seq<u8>) -> Option<(int, u8)> {
    if mint_valid_for(data, program_id) {
        Some((mint_supply(data), mint_decimals(data)))
    } else {
        None
    }
}

/// The fields of an account record, copied out of a valid buffer.
#[derive(Debug, Clone, Default, PartialEq, Eq)]
pub struct Account {
    pub mint: Address,
    pub owner: Address,
    pub amount: u64,
}

impl View for Account {
    type V = (Seq<u8>, Seq<u8>, int);

    open spec fn view(&self) -> (Seq<u8>, Seq<u8>, int) {
        (self.mint.bytes@, self.owner.bytes@, self.amount as int)
    }
}

impl Account {
    /// Reads `account_data` as an account of the token program `program_id`. Nothing comes
    /// back for an unknown program id or a buffer that is not a valid, initialized account of
    /// that program's format.
    pub fn unpack(account_data: &[u8], program_id: &Address) -> (r: Option<Account>)
        ensures
            r.is_some() == unpacked_account(account_data@, program_id.bytes@).is_some(),
            r.is_some() ==> unpacked_account(account_data@, program_id.bytes@) == Some(
                r.unwrap()@,
            ),
    {
        if address_eq(program_id, &token::id()) {
            if !token::Account::valid_account_data(account_data) {
                return None;
            }
            let mint = token::Account::unpack_account_mint_unchecked(account_data);
            let owner = token::Account::unpack_account_owner_unchecked(account_data);
            let amount = token::Account::unpack_account_amount_unchecked(account_data);
            Some(Account { mint, owner, amount })
        } else if address_eq(program_id, &token_2022::id()) {
            if !token_2022::Account::valid_account_data(account_data) {
                return None;
            }
            let mint = token_2022::Account::unpack_account_mint_unchecked(account_data);
            let owner = token_2022::Account::unpack_account_owner_unchecked(account_data);
            let amount = token_2022::Account::unpack_account_amount_unchecked(account_data);
            Some(Account { mint, owner, amount })
        } else {
            None
        }
    }
}

/// The fields of a mint record, copied out of a valid buffer.
#[derive(Debug, Clone, Copy, Default, PartialEq, Eq)]
pub struct Mint {
    pub supply: u64,
    pub decimals: u8,
}

impl View for Mint {
    type V = (int, u8);

    open spec fn view(&self) -> (int, u8) {
        (self.supply as int, self.decimals)
    }
}

impl Mint {
    /// Reads `account_data` as a mint of the token program `program_id`. Nothing comes back
    /// for an unknown program id or a buffer that is not a valid, initialized mint of that
    /// program's format.
    pub fn unpack(account_data: &[u8], program_id: &Address) -> (r: Option<Mint>)
        ensures
            r.is_some() == unpacked_mint(account_data@, program_id.bytes@).is_some(),
            r.is_some() ==> unpacked_mint(account_data@, program_id.bytes@) == Some(r.unwrap()@),
    {
        if address_eq(program_id, &token::id()) {
            if !token::Mint::valid_account_data(account_data) {
                return None;
            }
            let supply = token::Mint::unpack_mint_supply_unchecked(account_data);
            let decimals = token::Mint::unpack_mint_decimals_unchecked(account_data);
            Some(Mint { supply, decimals })
        } else if address_eq(program_id, &token_2022::id()) {
            if !token_2022::Mint::valid_account_data(account_data) {
                return None;
            }
            let supply = token_2022::Mint::unpack_mint_supply_unchecked(account_data);
            let decimals = token_2022::Mint::unpack_mint_decimals_unchecked(account_data);
            Some(Mint { supply, decimals })
        } else {
            None
        }
    }
}

/// The two known program ids differ.
pub proof fn lemma_program_ids_differ()
    ensures
        token::ID_BYTES@ != token_2022::ID_BYTES@,
{
    assert(token::ID_BYTES@[4] != token_2022::ID_BYTES@[4]);
}

/// A buffer that is shorter than a base account, or exactly of multisig length, is no account
/// under any program id.
pub proof fn lemma_account_length_outside_rejected(data: Seq<u8>, program_id: Seq<u8>)
    requires
        data.len() < token::SPL_TOKEN_ACCOUNT_LENGTH || data.len()
            == token_2022::SPL_TOKEN_MULTISIG_LENGTH,
    ensures
        unpacked_account(data, program_id) is None,
{
}

/// A base account record or a base mint record whose initialized byte is clear is neither an
/// account nor a mint, under any program id.
pub proof fn lemma_uninitialized_base_rejected(data: Seq<u8>, program_id: Seq<u8>)
    requires
        (data.len() == token::SPL_TOKEN_ACCOUNT_LENGTH && !token::account_initialized(data)) || (
        data.len() == token::SPL_TOKEN_MINT_LENGTH && !token::mint_initialized(data)),
    ensures
        unpacked_account(data, program_id) is None,
        unpacked_mint(data, program_id) is None,
{
}

/// A valid base account reads the same, with the same mint, owner and amount, under the base
/// and the extended program ids.
pub proof fn lemma_base_account_reads_alike(data: Seq<u8>)
    requires
        token::base_account_valid(data),
    ensures
        unpacked_account(data, token::ID_BYTES@) is Some,
        unpacked_account(data, token::ID_BYTES@) == unpacked_account(data, token_2022::ID_BYTES@),
{
    lemma_program_ids_differ();
}

/// A valid base mint reads the same, with the same supply and decimals, under the base and
/// the extended program ids.
pub proof fn lemma_base_mint_reads_alike(data: Seq<u8>)
    requires
        token::base_mint_valid(data),
    ensures
        unpacked_mint(data, token::ID_BYTES@) is Some,
        unpacked_mint(data, token::ID_BYTES@) == unpacked_mint(data, token_2022::ID_BYTES@),
{
    lemma_program_ids_differ();
}

/// A valid base account extended past the base length (to any length but the multisig
/// length) and tagged as an extended account is an account under the extended program id
/// only, with the same mint, owner and amount as before.
pub proof fn lemma_tagged_account_extended_only(base: Seq<u8>, tagged: Seq<u8>)
    requires
        token::base_account_valid(base),
        tagged.len() > token::SPL_TOKEN_ACCOUNT_LENGTH,
        tagged.len() != token_2022::SPL_TOKEN_MULTISIG_LENGTH,
        tagged.subrange(0, token::SPL_TOKEN_ACCOUNT_LENGTH as int) == base,
        tagged[token::SPL_TOKEN_ACCOUNT_LENGTH as int] == token_2022::ACCOUNTTYPE_ACCOUNT,
    ensures
        unpacked_account(tagged, token::ID_BYTES@) is None,
        unpacked_account(tagged, token_2022::ID_BYTES@) is Some,
        unpacked_account(tagged, token_2022::ID_BYTES@) == unpacked_account(base, token::ID_BYTES@),
{
    lemma_program_ids_differ();
    assert(tagged[token::SPL_TOKEN_ACCOUNT_STATE_OFFSET as int] == base[
        token::SPL_TOKEN_ACCOUNT_STATE_OFFSET as int
    ]);
    assert(account_mint(tagged) =~= account_mint(base));
    assert(account_owner(tagged) =~= account_owner(base));
    let a = token::SPL_TOKEN_ACCOUNT_AMOUNT_OFFSET as int;
    assert(account_amount(tagged) == account_amount(base)) by {
        assert(tagged[a] == base[a]);
        assert(tagged[a + 1] == base[a + 1]);
        assert(tagged[a + 2] == base[a + 2]);
        assert(tagged[a + 3] == base[a + 3]);
        assert(tagged[a + 4] == base[a + 4]);
        assert(tagged[a + 5] == base[a + 5]);
        assert(tagged[a + 6] == base[a + 6]);
        assert(tagged[a + 7] == base[a + 7]);
    }
}

/// No buffer is both an account and a mint, whichever program ids it is read under.
pub proof fn lemma_account_and_mint_disjoint(
    data: Seq<u8>,
    account_program_id: Seq<u8>,
    mint_program_id: Seq<u8>,
)
    ensures
        !(unpacked_account(data, account_program_id) is Some && unpacked_mint(
            data,
            mint_program_id,
        ) is Some),
{
}

/// A buffer of exactly the multisig length is neither an account nor a mint, under any
/// program id, whatever its bytes.
pub proof fn lemma_multisig_length_rejected(data: Seq<u8>, program_id: Seq<u8>)
    requires
        data.len() == token_2022::SPL_TOKEN_MULTISIG_LENGTH,
    ensures
        unpacked_account(data, program_id) is None,
        unpacked_mint(data, program_id) is None,
{
}

} // verus!
