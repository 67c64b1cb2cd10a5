use solana_sdk::program_option::COption;
use solana_sdk::program_pack::Pack;
use solana_sdk::pubkey::Pubkey;
use spl_token::state::Mint;
use token_service::chain::{
    decode_metadata_account, decode_mint_account, describe, metadata_address, parse_mint,
    strip_padding, Address, MetadataText, MintState,
};
use token_service::fetch::{fetch_token_metadata, FetchState, FetchStep, LedgerReply};
use token_service::{TokenError, TokenMetadata};

const MINT: &str = "61V8vBaqAGMpgDQi4JcAwo1dmBGHsyhzodcPqnEVpump";

const MINT_BYTES: [u8; 32] = [
    74, 106, 63, 169, 1, 23, 22, 184, 30, 190, 46, 111, 181, 168, 20, 114, 213, 227, 129, 8, 109,
    126, 244, 117, 78, 180, 17, 17, 85, 219, 78, 239,
];

const PROGRAM_BYTES: [u8; 32] = [
    11, 112, 101, 177, 227, 209, 124, 69, 56, 157, 82, 127, 107, 4, 195, 205, 88, 184, 108, 115,
    26, 160, 253, 181, 73, 182, 209, 188, 3, 248, 41, 70,
];

fn mint_account(supply: u64, decimals: u8) -> Vec<u8> {
    let mut data = vec![0u8; 82];
    data[36..44].copy_from_slice(&supply.to_le_bytes());
    data[44] = decimals;
    data[45] = 1;
    data
}

fn padded(text: &str, width: usize) -> Vec<u8> {
    let mut bytes = text.as_bytes().to_vec();
    while bytes.len() < width {
        bytes.push(0);
    }
    bytes
}

fn metadata_account(name: &[u8], symbol: &[u8]) -> Vec<u8> {
    let mut data = vec![4u8];
    data.extend_from_slice(&[7u8; 32]);
    data.extend_from_slice(&MINT_BYTES);
    for field in [name, symbol, &padded("https://example.org/t.json", 200)[..]] {
        data.extend_from_slice(&(field.len() as u32).to_le_bytes());
        data.extend_from_slice(field);
    }
    data.extend_from_slice(&500u16.to_le_bytes());
    data.push(0);
    data.push(1);
    data.push(0);
    data.extend_from_slice(&[0, 0, 0, 0, 0, 0]);
    data
}

#[test]
fn parse_mint_reads_base58() {
    let address = parse_mint(MINT).unwrap();
    assert_eq!(address.bytes, MINT_BYTES);
}

#[test]
fn parse_mint_of_the_all_ones_address_is_zero() {
    let address = parse_mint("11111111111111111111111111111111").unwrap();
    assert_eq!(address.bytes, [0u8; 32]);
}

#[test]
fn parse_mint_rejects_what_is_no_address() {
    assert_eq!(parse_mint("").unwrap_err(), TokenError::InvalidIdentifier);
    assert_eq!(parse_mint("abc").unwrap_err(), TokenError::InvalidIdentifier);
    assert_eq!(parse_mint("not base58: 0OIl").unwrap_err(), TokenError::InvalidIdentifier);
    let too_long = format!("{}1", "1".repeat(44));
    assert_eq!(parse_mint(&too_long).unwrap_err(), TokenError::InvalidIdentifier);
    let with_space = format!("{} ", MINT);
    assert_eq!(parse_mint(&with_space).unwrap_err(), TokenError::InvalidIdentifier);
}

#[test]
fn metadata_address_is_derived_from_seed_program_and_mint() {
    let program = Pubkey::new_from_array(PROGRAM_BYTES);
    let (expected, _) =
        Pubkey::find_program_address(&[b"metadata", &PROGRAM_BYTES, &MINT_BYTES], &program);
    let found = metadata_address(&Address { bytes: MINT_BYTES }).unwrap();
    assert_eq!(found.bytes, expected.to_bytes());
    assert_ne!(found.bytes, MINT_BYTES);
}

#[test]
fn metadata_address_uses_the_token_metadata_program() {
    assert_eq!(mpl_token_metadata::ID.to_bytes(), PROGRAM_BYTES);
    let mint = Pubkey::new_from_array(MINT_BYTES);
    let (expected, _) = mpl_token_metadata::accounts::Metadata::find_pda(&mint);
    let found = metadata_address(&Address { bytes: MINT_BYTES }).unwrap();
    assert_eq!(found.bytes, expected.to_bytes());
}

#[test]
fn metadata_address_differs_between_mints() {
    let first = metadata_address(&Address { bytes: MINT_BYTES }).unwrap();
    let second = metadata_address(&Address { bytes: [9u8; 32] }).unwrap();
    assert_ne!(first.bytes, second.bytes);
}

#[test]
fn decode_mint_account_reads_supply_and_decimals() {
    let state = decode_mint_account(&mint_account(1_000_000_000_000_000, 6)).unwrap();
    assert_eq!(state.supply, 1_000_000_000_000_000);
    assert_eq!(state.decimals, 6);
}

#[test]
fn decode_mint_account_reads_the_supply_little_endian() {
    let mut data = mint_account(0, 9);
    data[36] = 1;
    data[37] = 2;
    data[43] = 128;
    let state = decode_mint_account(&data).unwrap();
    assert_eq!(state.supply, 1 + 2 * 256 + 128 * (1u64 << 56));
    assert_eq!(state.decimals, 9);
    let full = decode_mint_account(&mint_account(u64::MAX, 255)).unwrap();
    assert_eq!(full.supply, u64::MAX);
    assert_eq!(full.decimals, 255);
}

#[test]
fn decode_mint_account_reads_what_the_token_program_packs() {
    let mint = Mint {
        mint_authority: COption::Some(Pubkey::new_from_array([3u8; 32])),
        supply: 987_654_321,
        decimals: 2,
        is_initialized: true,
        freeze_authority: COption::None,
    };
    let mut data = vec![0u8; 82];
    Mint::pack(mint, &mut data).unwrap();
    let state = decode_mint_account(&data).unwrap();
    assert_eq!(state.supply, 987_654_321);
    assert_eq!(state.decimals, 2);
}

#[test]
fn decode_mint_account_rejects_other_layouts() {
    let good = mint_account(5, 0);
    assert!(decode_mint_account(&good).is_ok());

    assert_eq!(decode_mint_account(&[]).unwrap_err(), TokenError::DecodeError);
    assert_eq!(decode_mint_account(&good[..81]).unwrap_err(), TokenError::DecodeError);
    let mut longer = good.clone();
    longer.push(0);
    assert_eq!(decode_mint_account(&longer).unwrap_err(), TokenError::DecodeError);

    let mut uninitialized = good.clone();
    uninitialized[45] = 0;
    assert_eq!(decode_mint_account(&uninitialized).unwrap_err(), TokenError::DecodeError);
    let mut odd_flag = good.clone();
    odd_flag[45] = 2;
    assert_eq!(decode_mint_account(&odd_flag).unwrap_err(), TokenError::DecodeError);

    for at in [0usize, 46] {
        let mut with_key = good.clone();
        with_key[at] = 1;
        assert!(decode_mint_account(&with_key).is_ok());
        let mut bad_tag = good.clone();
        bad_tag[at] = 2;
        assert_eq!(decode_mint_account(&bad_tag).unwrap_err(), TokenError::DecodeError);
        for offset in 1..4 {
            let mut bad_tag = good.clone();
            bad_tag[at + offset] = 1;
            assert_eq!(decode_mint_account(&bad_tag).unwrap_err(), TokenError::DecodeError);
        }
    }
}

#[test]
fn decode_metadata_account_reads_name_and_symbol() {
    let data = metadata_account(&padded("Pump Token", 32), &padded("PUMP", 10));
    let text = decode_metadata_account(&data).unwrap();
    assert_eq!(text.name.as_bytes(), &padded("Pump Token", 32)[..]);
    assert_eq!(text.symbol.as_bytes(), &padded("PUMP", 10)[..]);
}

#[test]
fn decode_metadata_account_rejects_other_layouts() {
    assert_eq!(decode_metadata_account(&[]).unwrap_err(), TokenError::DecodeError);
    assert_eq!(decode_metadata_account(&[4u8; 40]).unwrap_err(), TokenError::DecodeError);
    let good = metadata_account(b"name", b"SYM");
    assert!(decode_metadata_account(&good).is_ok());
    assert_eq!(decode_metadata_account(&good[..70]).unwrap_err(), TokenError::DecodeError);
    let mut bad_key = good.clone();
    bad_key[0] = 200;
    assert_eq!(decode_metadata_account(&bad_key).unwrap_err(), TokenError::DecodeError);
    let not_text = metadata_account(&[0xff, 0xfe], b"SYM");
    assert_eq!(decode_metadata_account(&not_text).unwrap_err(), TokenError::DecodeError);
}

#[test]
fn strip_padding_removes_trailing_nuls_only() {
    assert_eq!(strip_padding("Pump Token\0\0\0"), "Pump Token");
    assert_eq!(strip_padding("PUMP"), "PUMP");
    assert_eq!(strip_padding(""), "");
    assert_eq!(strip_padding("\0\0\0"), "");
    assert_eq!(strip_padding("a\0b\0"), "a\0b");
    assert_eq!(strip_padding("\0lead\0"), "\0lead");
    assert_eq!(strip_padding("caf\u{e9}\0"), "caf\u{e9}");
    assert_eq!(strip_padding("end "), "end ");
}

#[test]
fn describe_puts_the_record_together() {
    let text = MetadataText { name: "Pump Token\0\0".to_string(), symbol: "PUMP\0".to_string() };
    let record = describe(MINT, MintState { supply: 42, decimals: 6 }, &text);
    let expected = TokenMetadata {
        mint: MINT.to_string(),
        name: "Pump Token".to_string(),
        symbol: "PUMP".to_string(),
        decimals: 6,
        supply: 42,
    };
    assert_eq!(record, expected);
}

#[test]
fn token_metadata_clone_and_eq() {
    let record = TokenMetadata {
        mint: MINT.to_string(),
        name: "n".to_string(),
        symbol: "s".to_string(),
        decimals: 1,
        supply: 2,
    };
    let copy = record.clone();
    assert_eq!(copy, record);
    let mut other = record.clone();
    other.supply = 3;
    assert_ne!(other, record);
    let mut renamed = record.clone();
    renamed.name = "m".to_string();
    assert_ne!(renamed, record);
}

#[test]
fn fetch_begins_with_the_mint_account() {
    match fetch_token_metadata(MINT) {
        FetchStep::Read { address, state: FetchState::Mint { mint, address: kept } } => {
            assert_eq!(address.bytes, MINT_BYTES);
            assert_eq!(kept.bytes, MINT_BYTES);
            assert_eq!(mint, MINT);
        }
        other => panic!("{:?}", other),
    }
}

#[test]
fn fetch_of_an_invalid_identifier_ends_at_once() {
    match fetch_token_metadata("nope") {
        FetchStep::Finish(Err(error)) => assert_eq!(error, TokenError::InvalidIdentifier),
        other => panic!("{:?}", other),
    }
}

#[test]
fn fetch_reads_two_accounts_and_builds_the_record() {
    let state = match fetch_token_metadata(MINT) {
        FetchStep::Read { state, .. } => state,
        other => panic!("{:?}", other),
    };
    let state = match state.step(LedgerReply::Account(mint_account(1_000, 6))) {
        FetchStep::Read { address, state } => {
            let expected = metadata_address(&Address { bytes: MINT_BYTES }).unwrap();
            assert_eq!(address.bytes, expected.bytes);
            match &state {
                FetchState::Metadata { mint, state } => {
                    assert_eq!(mint, MINT);
                    assert_eq!(state.supply, 1_000);
                    assert_eq!(state.decimals, 6);
                }
                other => panic!("{:?}", other),
            }
            state
        }
        other => panic!("{:?}", other),
    };
    let data = metadata_account(&padded("Pump Token", 32), &padded("PUMP", 10));
    match state.step(LedgerReply::Account(data)) {
        FetchStep::Finish(Ok(record)) => {
            assert_eq!(record.mint, MINT);
            assert_eq!(record.name, "Pump Token");
            assert_eq!(record.symbol, "PUMP");
            assert_eq!(record.decimals, 6);
            assert_eq!(record.supply, 1_000);
        }
        other => panic!("{:?}", other),
    }
}

#[test]
fn fetch_fails_as_the_ledger_fails() {
    let begin = || match fetch_token_metadata(MINT) {
        FetchStep::Read { state, .. } => state,
        other => panic!("{:?}", other),
    };
    let second = || match begin().step(LedgerReply::Account(mint_account(1, 0))) {
        FetchStep::Read { state, .. } => state,
        other => panic!("{:?}", other),
    };
    let error_of = |step: FetchStep| match step {
        FetchStep::Finish(Err(error)) => error,
        other => panic!("{:?}", other),
    };
    assert_eq!(error_of(begin().step(LedgerReply::Missing)), TokenError::NotFound);
    assert_eq!(error_of(begin().step(LedgerReply::Unreachable)), TokenError::NetworkError);
    assert_eq!(error_of(begin().step(LedgerReply::Account(vec![1, 2, 3]))), TokenError::DecodeError);
    assert_eq!(error_of(second().step(LedgerReply::Missing)), TokenError::NotFound);
    assert_eq!(error_of(second().step(LedgerReply::Unreachable)), TokenError::NetworkError);
    assert_eq!(error_of(second().step(LedgerReply::Account(vec![]))), TokenError::DecodeError);
}
