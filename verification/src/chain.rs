//! Addresses of the ledger and the layouts of the two accounts that describe
//! a token: the mint account and its metadata account.

use mpl_token_metadata::accounts::Metadata;
use solana_sdk::program_error::ProgramError;
use solana_sdk::program_pack::Pack;
use solana_sdk::pubkey::{ParsePubkeyError, Pubkey};
use spl_token::state::Mint;
use std::str::FromStr;
use vstd::prelude::*;
use vstd::string::StrSliceExecFns;

use crate::types::{TokenError, TokenMetadata, TokenMetadataView};

verus! {

/// An address of the ledger: 32 bytes.
#[derive(Debug, Clone, Copy)]
pub struct Address {
    pub bytes: [u8; 32],
}

impl View for Address {
    type V = Seq<u8>;

    open spec fn view(&self) -> Seq<u8> {
        self.bytes@
    }
}

/// What the service reads out of a mint account.
#[derive(Debug, Clone, Copy)]
pub struct MintState {
    pub supply: u64,
    pub decimals: u8,
}

/// What the service reads out of a metadata account.
#[derive(Debug)]
pub struct MetadataText {
    pub name: String,
    pub symbol: String,
}

/// The error of `Pubkey::from_str`, carried through unread.
#[verifier::external_type_specification]
#[verifier::external_body]
pub struct ExParsePubkeyError(ParsePubkeyError);

/// The error of `Mint::unpack`, carried through unread.
#[verifier::external_type_specification]
#[verifier::external_body]
pub struct ExProgramError(ProgramError);

/// The error of `Metadata::from_bytes`, carried through unread.
#[verifier::external_type_specification]
#[verifier::external_body]
pub struct ExIoError(std::io::Error);

/// The 32 bytes that `Pubkey::from_str` reads out of an identifier, or `None`
/// where it rejects the identifier.
pub uninterp spec fn decoded_address(text: Seq<char>) -> Option<Seq<u8>>;

/// The address that `Pubkey::try_find_program_address` derives for a program
/// from a list of seeds, or `None` where it finds none.
pub uninterp spec fn program_address(seeds: Seq<Seq<u8>>, program: Seq<u8>) -> Option<Seq<u8>>;

/// The name and the symbol, in this order and still padded, that
/// `Metadata::from_bytes` reads out of an account's bytes, or `None` where it
/// rejects them.
pub uninterp spec fn metadata_text(data: Seq<u8>) -> Option<(Seq<char>, Seq<char>)>;

/// Calls `Pubkey::from_str` of `solana_sdk`, the base-58 reading of an
/// address. Trusted: the outcome is `decoded_address` of the text.
#[verifier::external_body]
fn pubkey_from_str(text: &str) -> (parsed: Result<Address, ParsePubkeyError>)
    ensures
        match parsed {
            Ok(address) => decoded_address(text@) == Some(address@),
            Err(_) => decoded_address(text@) is None,
        },
{
    match Pubkey::from_str(text) {
        Ok(key) => Ok(Address { bytes: key.to_bytes() }),
        Err(error) => Err(error),
    }
}

/// Calls `Pubkey::try_find_program_address` of `solana_sdk` with three seeds
/// and keeps the address of the pair it returns. Trusted: the outcome is
/// `program_address` of the seeds and the program.
#[verifier::external_body]
fn try_find_program_address(first: &[u8], second: &[u8], third: &[u8], program: &Address) -> (found:
    Option<Address>)
    ensures
        match found {
            Some(address) => program_address(seq![first@, second@, third@], program@) == Some(
                address@,
            ),
            None => program_address(seq![first@, second@, third@], program@) is None,
        },
{
    let program_key = Pubkey::new_from_array(program.bytes);
    match Pubkey::try_find_program_address(&[first, second, third], &program_key) {
        Some((key, _)) => Some(Address { bytes: key.to_bytes() }),
        None => None,
    }
}

/// Reads the constant `mpl_token_metadata::ID`. Trusted: it is the address
/// `metaqbxxUerdq28cj1RbAWkYQm3ybzjb6a8bt518x1s`, whose bytes
/// `metadata_program_id` lists.
#[verifier::external_body]
fn metadata_program() -> (program: Address)
    ensures
        program@ == metadata_program_id(),
{
    Address { bytes: mpl_token_metadata::ID.to_bytes() }
}

/// Calls `Mint::unpack` of `spl_token`. Trusted: it accepts exactly the
/// 82-byte layout that `is_initialized_mint` describes, and reads the supply
/// and the decimals at the offsets of `mint_supply` and `mint_decimals`.
#[verifier::external_body]
fn unpack_mint(data: &[u8]) -> (unpacked: Result<MintState, ProgramError>)
    ensures
        unpacked is Ok <==> is_initialized_mint(data@),
        unpacked matches Ok(state) ==> state.supply == mint_supply(data@) && state.decimals
            == mint_decimals(data@),
{
    match Mint::unpack(data) {
        Ok(mint) => Ok(MintState { supply: mint.supply, decimals: mint.decimals }),
        Err(error) => Err(error),
    }
}

/// Calls `Metadata::from_bytes` of `mpl_token_metadata`. Trusted: the outcome
/// is `metadata_text` of the bytes.
#[verifier::external_body]
fn metadata_from_bytes(data: &[u8]) -> (decoded: Result<MetadataText, std::io::Error>)
    ensures
        match decoded {
            Ok(text) => metadata_text(data@) == Some((text.name@, text.symbol@)),
            Err(_) => metadata_text(data@) is None,
        },
{
    match Metadata::from_bytes(data) {
        Ok(metadata) => Ok(MetadataText { name: metadata.name, symbol: metadata.symbol }),
        Err(error) => Err(error),
    }
}

/// The bytes of the address of the token-metadata program.
pub open spec fn metadata_program_id() -> Seq<u8> {
    seq![
        11u8, 112u8, 101u8, 177u8, 227u8, 209u8, 124u8, 69u8,
        56u8, 157u8, 82u8, 127u8, 107u8, 4u8, 195u8, 205u8,
        88u8, 184u8, 108u8, 115u8, 26u8, 160u8, 253u8, 181u8,
        73u8, 182u8, 209u8, 188u8, 3u8, 248u8, 41u8, 70u8,
    ]
}

/// The first seed of every metadata address: the ASCII bytes of `metadata`.
pub open spec fn metadata_seed() -> Seq<u8> {
    seq![109u8, 101u8, 116u8, 97u8, 100u8, 97u8, 116u8, 97u8]
}

/// The address of the metadata account that belongs to the mint at `mint`,
/// or `None` where no such address can be derived.
pub open spec fn metadata_address_of(mint: Seq<u8>) -> Option<Seq<u8>> {
    program_address(seq![metadata_seed(), metadata_program_id(), mint], metadata_program_id())
}

/// Whether the four bytes at `at` are the tag of an optional key: 0 or 1 as
/// a little-endian 32-bit number.
pub open spec fn is_option_tag(data: Seq<u8>, at: int) -> bool {
    &&& data[at] == 0 || data[at] == 1
    &&& data[at + 1] == 0
    &&& data[at + 2] == 0
    &&& data[at + 3] == 0
}

/// Whether `data` is the packed form of an initialized mint: 82 bytes, an
/// optional mint authority in bytes 0 to 35, the supply in bytes 36 to 43,
/// the decimals in byte 44, the initialized flag in byte 45, which is set,
/// and an optional freeze authority in bytes 46 to 81.
pub open spec fn is_initialized_mint(data: Seq<u8>) -> bool {
    &&& data.len() == 82
    &&& is_option_tag(data, 0)
    &&& data[45] == 1
    &&& is_option_tag(data, 46)
}

/// The supply of a packed mint: bytes 36 to 43 as a little-endian number.
pub open spec fn mint_supply(data: Seq<u8>) -> int {
    data[36] + 0x100 * (data[37] + 0x100 * (data[38] + 0x100 * (data[39] + 0x100 * (data[40] + 0x100
        * (data[41] + 0x100 * (data[42] + 0x100 * data[43]))))))
}

/// The decimals of a packed mint: byte 44.
pub open spec fn mint_decimals(data: Seq<u8>) -> u8 {
    data[44]
}

/// What a packed mint says of its token.
pub open spec fn mint_state(data: Seq<u8>) -> MintState {
    MintState { supply: mint_supply(data) as u64, decimals: mint_decimals(data) }
}

/// A text without the NUL characters that pad its end.
pub open spec fn without_padding(text: Seq<char>) -> Seq<char>
    decreases text.len(),
{
    if text.len() > 0 && text.last() == '\0' {
        without_padding(text.drop_last())
    } else {
        text
    }
}

/// The record that describes the token `mint`, given what its two accounts
/// hold: the padding of the name and of the symbol is gone.
pub open spec fn described(mint: Seq<char>, state: MintState, name: Seq<char>, symbol: Seq<char>)
    -> TokenMetadataView {
    TokenMetadataView {
        mint,
        name: without_padding(name),
        symbol: without_padding(symbol),
        decimals: state.decimals,
        supply: state.supply,
    }
}

/// Reads a mint identifier as an address of the ledger.
///
/// Fails with `InvalidIdentifier` exactly where the identifier is no address.
pub fn parse_mint(mint: &str) -> (parsed: Result<Address, TokenError>)
    ensures
        match parsed {
            Ok(address) => decoded_address(mint@) == Some(address@),
            Err(error) => error == TokenError::InvalidIdentifier && decoded_address(mint@) is None,
        },
{
    match pubkey_from_str(mint) {
        Ok(address) => Ok(address),
        Err(_) => Err(TokenError::InvalidIdentifier),
    }
}

/// Derives the address of the metadata account of the mint at `mint`.
pub fn metadata_address(mint: &Address) -> (found: Option<Address>)
    ensures
        match found {
            Some(address) => metadata_address_of(mint@) == Some(address@),
            None => metadata_address_of(mint@) is None,
        },
{
    let seed: [u8; 8] = [109, 101, 116, 97, 100, 97, 116, 97];
    assert(seed@ =~= metadata_seed());
    let program = metadata_program();
    try_find_program_address(seed.as_slice(), program.bytes.as_slice(), mint.bytes.as_slice(), &program)
}

/// Reads the supply and the decimals out of the bytes of a mint account.
///
/// Fails with `DecodeError` exactly where the bytes are not an initialized
/// mint.
pub fn decode_mint_account(data: &[u8]) -> (decoded: Result<MintState, TokenError>)
    ensures
        match decoded {
            Ok(state) => is_initialized_mint(data@) && state == mint_state(data@)
                && state.supply == mint_supply(data@),
            Err(error) => error == TokenError::DecodeError && !is_initialized_mint(data@),
        },
{
    match unpack_mint(data) {
        Ok(state) => Ok(state),
        Err(_) => Err(TokenError::DecodeError),
    }
}

/// Reads the name and the symbol, still padded, out of the bytes of a
/// metadata account.
///
/// Fails with `DecodeError` exactly where the bytes are no metadata account.
pub fn decode_metadata_account(data: &[u8]) -> (decoded: Result<MetadataText, TokenError>)
    ensures
        match decoded {
            Ok(text) => metadata_text(data@) == Some((text.name@, text.symbol@)),
            Err(error) => error == TokenError::DecodeError && metadata_text(data@) is None,
        },
{
    match metadata_from_bytes(data) {
        Ok(text) => Ok(text),
        Err(_) => Err(TokenError::DecodeError),
    }
}

/// Removes the NUL characters that pad the end of a text.
pub fn strip_padding(text: &str) -> (stripped: String)
    ensures
        stripped@ == without_padding(text@),
{
    let mut end: usize = text.unicode_len();
    assert(text@.take(end as int) =~= text@);
    while end > 0 && text.get_char(end - 1) == '\0'
        invariant
            end <= text@.len(),
            without_padding(text@) == without_padding(text@.take(end as int)),
        decreases end,
    {
        assert(text@.take(end as int).drop_last() =~= text@.take(end - 1));
        end = end - 1;
    }
    assert(text@.subrange(0, end as int) =~= text@.take(end as int));
    text.substring_char(0, end).to_owned()
}

/// Puts together the record of the token `mint` from what its two accounts
/// hold.
pub fn describe(mint: &str, state: MintState, text: &MetadataText) -> (metadata: TokenMetadata)
    ensures
        metadata@ == described(mint@, state, text.name@, text.symbol@),
{
    TokenMetadata {
        mint: mint.to_owned(),
        name: strip_padding(text.name.as_str()),
        symbol: strip_padding(text.symbol.as_str()),
        decimals: state.decimals,
        supply: state.supply,
    }
}

} // verus!
