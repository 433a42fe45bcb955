use std::str::FromStr;

use solana_pubkey::Pubkey;
use spl_generic_token::generic_token::{Account, Mint};
use spl_generic_token::token::{self, native_mint, GenericTokenAccount, GenericTokenMint};
use spl_generic_token::{is_known_spl_token_id, spl_token_ids, token_2022, Address};

const ACCOUNT_LEN: usize = 165;
const MINT_LEN: usize = 82;
const MULTISIG_LEN: usize = 355;

/// A small deterministic generator, so that each run sees the same records.
struct Lcg(u64);

impl Lcg {
    fn next(&mut self) -> u64 {
        self.0 = self
            .0
            .wrapping_mul(6364136223846793005)
            .wrapping_add(1442695040888963407);
        self.0 ^ (self.0 >> 29)
    }

    fn address(&mut self) -> [u8; 32] {
        let mut out = [0u8; 32];
        for b in out.iter_mut() {
            *b = self.next() as u8;
        }
        out
    }
}

fn pack_account(mint: [u8; 32], owner: [u8; 32], amount: u64, state: u8) -> Vec<u8> {
    let mut data = vec![0u8; ACCOUNT_LEN];
    data[0..32].copy_from_slice(&mint);
    data[32..64].copy_from_slice(&owner);
    data[64..72].copy_from_slice(&amount.to_le_bytes());
    data[108] = state;
    data
}

fn pack_mint(supply: u64, decimals: u8, is_initialized: bool) -> Vec<u8> {
    let mut data = vec![0u8; MINT_LEN];
    data[36..44].copy_from_slice(&supply.to_le_bytes());
    data[44] = decimals;
    data[45] = is_initialized as u8;
    data
}

fn retag(data: &mut Vec<u8>, tag: u8) {
    data.resize(ACCOUNT_LEN + 2, 0);
    data[ACCOUNT_LEN] = tag;
}

#[test]
fn test_get_packed_len() {
    assert_eq!(token::Account::get_packed_len(), 165);
    assert_eq!(token::Mint::get_packed_len(), 82);
}

#[test]
fn program_ids_match_their_base58_names() {
    let base = Pubkey::from_str("TokenkegQfeZyiNwAJbNbGKPFXCWuBvf9Ss623VQ5DA").unwrap();
    let extended = Pubkey::from_str("TokenzQdBNbLqP5VEhdkAS6EPFLC1PHnBqCXEpPxuEb").unwrap();
    let native = Pubkey::from_str("So11111111111111111111111111111111111111112").unwrap();
    assert_eq!(token::id().to_bytes(), base.to_bytes());
    assert_eq!(token_2022::id().to_bytes(), extended.to_bytes());
    assert_eq!(native_mint::id().to_bytes(), native.to_bytes());
}

#[test]
fn known_program_ids() {
    let ids = spl_token_ids();
    assert_eq!(ids, vec![token::id(), token_2022::id()]);
    assert!(is_known_spl_token_id(&token::id()));
    assert!(is_known_spl_token_id(&token_2022::id()));
    assert!(!is_known_spl_token_id(&native_mint::id()));
    assert!(!is_known_spl_token_id(&Address::default()));
}

fn check_generic_account(is_token_2022_account: bool, seed: u64) {
    let mut rng = Lcg(seed);
    for _ in 0..1000 {
        let mint = rng.address();
        let owner = rng.address();
        let amount = rng.next();
        let state = (rng.next() % 3) as u8;
        let is_initialized = state != 0;
        let mut data = pack_account(mint, owner, amount, state);

        if is_initialized && is_token_2022_account {
            retag(&mut data, 2);
            assert_eq!(Account::unpack(&data, &token::id()), None);
            let parsed = Account::unpack(&data, &token_2022::id()).unwrap();
            assert_eq!(parsed.mint.to_bytes(), mint);
            assert_eq!(parsed.owner.to_bytes(), owner);
            assert_eq!(parsed.amount, amount);
        } else if is_initialized {
            for id in [token::id(), token_2022::id()] {
                let parsed = Account::unpack(&data, &id).unwrap();
                assert_eq!(parsed.mint.to_bytes(), mint);
                assert_eq!(parsed.owner.to_bytes(), owner);
                assert_eq!(parsed.amount, amount);
            }
        } else {
            assert_eq!(Account::unpack(&data, &token::id()), None);
            assert_eq!(Account::unpack(&data, &token_2022::id()), None);
        }

        assert_eq!(Mint::unpack(&data, &token::id()), None);
        assert_eq!(Mint::unpack(&data, &token_2022::id()), None);

        data.resize(MULTISIG_LEN, 0);
        assert_eq!(Account::unpack(&data, &token::id()), None);
        assert_eq!(Account::unpack(&data, &token_2022::id()), None);
    }
}

#[test]
fn generic_account_spl_token() {
    check_generic_account(false, 1);
}

#[test]
fn generic_account_spl_token_2022() {
    check_generic_account(true, 2);
}

fn check_generic_mint(is_token_2022_mint: bool, seed: u64) {
    let mut rng = Lcg(seed);
    for _ in 0..1000 {
        let supply = rng.next();
        let decimals = rng.next() as u8;
        let is_initialized = rng.next() % 2 == 1;
        let mut data = pack_mint(supply, decimals, is_initialized);

        if is_initialized && is_token_2022_mint {
            retag(&mut data, 1);
            assert_eq!(Mint::unpack(&data, &token::id()), None);
            let parsed = Mint::unpack(&data, &token_2022::id()).unwrap();
            assert_eq!(parsed.supply, supply);
            assert_eq!(parsed.decimals, decimals);
        } else if is_initialized {
            for id in [token::id(), token_2022::id()] {
                let parsed = Mint::unpack(&data, &id).unwrap();
                assert_eq!(parsed.supply, supply);
                assert_eq!(parsed.decimals, decimals);
            }
        } else {
            assert_eq!(Mint::unpack(&data, &token::id()), None);
            assert_eq!(Mint::unpack(&data, &token_2022::id()), None);
        }

        assert_eq!(Account::unpack(&data, &token::id()), None);
        assert_eq!(Account::unpack(&data, &token_2022::id()), None);

        data.resize(MULTISIG_LEN, 0);
        assert_eq!(Mint::unpack(&data, &token::id()), None);
        assert_eq!(Mint::unpack(&data, &token_2022::id()), None);
    }
}

#[test]
fn generic_mint_spl_token() {
    check_generic_mint(false, 3);
}

#[test]
fn generic_mint_spl_token_2022() {
    check_generic_mint(true, 4);
}

#[test]
fn account_lengths_outside_both_formats_are_rejected() {
    for len in [0usize, 1, 82, 108, 109, 164, MULTISIG_LEN] {
        let mut data = vec![1u8; len];
        if len > ACCOUNT_LEN {
            data[ACCOUNT_LEN] = 2;
        }
        assert_eq!(Account::unpack(&data, &token::id()), None);
        assert_eq!(Account::unpack(&data, &token_2022::id()), None);
    }
}

#[test]
fn uninitialized_base_records_are_rejected() {
    let account = pack_account([7; 32], [8; 32], 5, 0);
    let mint = pack_mint(5, 2, false);
    for id in [token::id(), token_2022::id()] {
        for data in [&account, &mint] {
            assert_eq!(Account::unpack(data, &id), None);
            assert_eq!(Mint::unpack(data, &id), None);
        }
    }
}

#[test]
fn base_account_reads_alike_under_both_ids() {
    let data = pack_account([3; 32], [4; 32], 42, 1);
    let base = Account::unpack(&data, &token::id()).unwrap();
    let extended = Account::unpack(&data, &token_2022::id()).unwrap();
    assert_eq!(base, extended);
    assert_eq!(base.mint, Address::new_from_array([3; 32]));
    assert_eq!(base.owner, Address::new_from_array([4; 32]));
    assert_eq!(base.amount, 42);
}

#[test]
fn tagged_account_reads_under_extended_id_only() {
    let mut data = pack_account([9; 32], [10; 32], 77, 2);
    let before = Account::unpack(&data, &token::id()).unwrap();
    retag(&mut data, 2);
    assert_eq!(Account::unpack(&data, &token::id()), None);
    assert_eq!(Account::unpack(&data, &token_2022::id()), Some(before));
}

#[test]
fn extended_account_of_any_longer_length() {
    let mut data = pack_account([1; 32], [2; 32], 3, 1);
    data.resize(400, 0xff);
    data[ACCOUNT_LEN] = 2;
    let parsed = Account::unpack(&data, &token_2022::id()).unwrap();
    assert_eq!(parsed.amount, 3);
    data[ACCOUNT_LEN] = 1;
    assert_eq!(Account::unpack(&data, &token_2022::id()), None);
}

#[test]
fn tagged_account_without_initialized_state_is_rejected() {
    let mut data = pack_account([1; 32], [2; 32], 3, 0);
    retag(&mut data, 2);
    assert_eq!(Account::unpack(&data, &token_2022::id()), None);
}

#[test]
fn mint_tag_on_account_length_is_not_a_mint_without_flag() {
    let mut data = vec![0u8; ACCOUNT_LEN + 1];
    data[ACCOUNT_LEN] = 1;
    assert_eq!(Mint::unpack(&data, &token_2022::id()), None);
    data[45] = 1;
    data[44] = 4;
    assert_eq!(
        Mint::unpack(&data, &token_2022::id()),
        Some(Mint { supply: 0, decimals: 4 })
    );
    assert_eq!(Mint::unpack(&data, &token::id()), None);
    assert_eq!(Account::unpack(&data, &token_2022::id()), None);
}

#[test]
fn records_never_parse_as_both_kinds() {
    let mut account = pack_account([5; 32], [6; 32], 1, 1);
    let mut mint = pack_mint(10, 3, true);
    for id in [token::id(), token_2022::id()] {
        assert!(Account::unpack(&account, &id).is_some());
        assert_eq!(Mint::unpack(&account, &id), None);
        assert!(Mint::unpack(&mint, &id).is_some());
        assert_eq!(Account::unpack(&mint, &id), None);
    }
    retag(&mut account, 2);
    retag(&mut mint, 1);
    for id in [token::id(), token_2022::id()] {
        assert_eq!(Mint::unpack(&account, &id), None);
        assert_eq!(Account::unpack(&mint, &id), None);
    }
}

#[test]
fn multisig_length_is_rejected_whatever_the_bytes() {
    for fill in [0u8, 1, 2, 0xff] {
        let mut data = vec![fill; MULTISIG_LEN];
        data[108] = 1;
        data[45] = 1;
        for tag in [1u8, 2] {
            data[ACCOUNT_LEN] = tag;
            for id in [token::id(), token_2022::id()] {
                assert_eq!(Account::unpack(&data, &id), None);
                assert_eq!(Mint::unpack(&data, &id), None);
            }
        }
    }
}

#[test]
fn mint_example_under_both_ids() {
    let mut data = pack_mint(1_000_000, 6, true);
    for id in [token::id(), token_2022::id()] {
        assert_eq!(
            Mint::unpack(&data, &id),
            Some(Mint { supply: 1_000_000, decimals: 6 })
        );
    }
    data[45] = 0;
    for id in [token::id(), token_2022::id()] {
        assert_eq!(Mint::unpack(&data, &id), None);
    }
}

#[test]
fn native_mint_record() {
    let mint = Mint::unpack(&native_mint::account_data(), &token::id()).unwrap();
    assert_eq!(mint, Mint { supply: 0, decimals: 9 });
}

#[test]
fn unknown_program_id_gives_nothing() {
    let account = pack_account([1; 32], [2; 32], 3, 1);
    let mint = pack_mint(4, 5, true);
    let other = native_mint::id();
    assert_eq!(Account::unpack(&account, &other), None);
    assert_eq!(Mint::unpack(&mint, &other), None);
    assert!(Account::unpack(&account, &token::id()).is_some());
}

#[test]
fn amount_and_supply_are_little_endian() {
    let mut account = pack_account([0; 32], [0; 32], 0, 1);
    account[64..72].copy_from_slice(&[1, 2, 3, 4, 5, 6, 7, 8]);
    assert_eq!(
        token::Account::unpack_account_amount(&account),
        Some(0x0807_0605_0403_0201)
    );
    let mut mint = pack_mint(0, 0, true);
    mint[36..44].copy_from_slice(&[0xff; 8]);
    assert_eq!(token::Mint::unpack_mint_supply(&mint), Some(u64::MAX));
}

#[test]
fn checked_getters_follow_validity() {
    let mut mint_bytes = [0u8; 32];
    let mut owner_bytes = [0u8; 32];
    for i in 0..32 {
        mint_bytes[i] = i as u8;
        owner_bytes[i] = 100 + i as u8;
    }
    let data = pack_account(mint_bytes, owner_bytes, 9, 1);
    assert_eq!(
        token::Account::unpack_account_mint(&data),
        Some(Address::new_from_array(mint_bytes))
    );
    assert_eq!(
        token_2022::Account::unpack_account_owner(&data),
        Some(Address::new_from_array(owner_bytes))
    );
    assert_eq!(token_2022::Account::unpack_account_amount(&data), Some(9));

    let short = &data[..100];
    assert_eq!(token::Account::unpack_account_mint(short), None);
    assert_eq!(token_2022::Account::unpack_account_amount(short), None);

    let mint = pack_mint(12, 3, true);
    assert_eq!(token::Mint::unpack_mint_decimals(&mint), Some(3));
    assert_eq!(token_2022::Mint::unpack_mint_supply(&mint), Some(12));
    assert_eq!(token::Mint::unpack_mint_decimals(&data), None);
}

#[test]
fn initialized_probe_tolerates_short_buffers() {
    assert!(!token::is_initialized_account(&[1u8; 108]));
    assert!(token::is_initialized_account(&[1u8; 109]));
    assert!(!token::is_initialized_mint(&[]));
    assert!(token::is_initialized_token_data(&[0, 0, 3], 2));
    assert!(!token::is_initialized_token_data(&[0, 0, 3], 3));
}
