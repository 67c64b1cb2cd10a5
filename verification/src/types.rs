//! The records that the service hands out and the ways in which it fails.

use vstd::prelude::*;

verus! {

/// The three endpoints that a deployment is configured with.
#[derive(Debug)]
pub struct Config {
    pub rpc_url: String,
    pub websocket_url: String,
    pub db_url: String,
}

/// Descriptive attributes of one token, keyed by its mint identifier.
#[derive(Debug)]
pub struct TokenMetadata {
    pub mint: String,
    pub name: String,
    pub symbol: String,
    pub decimals: u8,
    pub supply: u64,
}

/// The mathematical value of a [`TokenMetadata`].
pub struct TokenMetadataView {
    pub mint: Seq<char>,
    pub name: Seq<char>,
    pub symbol: Seq<char>,
    pub decimals: u8,
    pub supply: u64,
}

impl View for TokenMetadata {
    type V = TokenMetadataView;

    open spec fn view(&self) -> TokenMetadataView {
        TokenMetadataView {
            mint: self.mint@,
            name: self.name@,
            symbol: self.symbol@,
            decimals: self.decimals,
            supply: self.supply,
        }
    }
}

impl Clone for TokenMetadata {
    fn clone(&self) -> (copy: Self)
        ensures
            copy@ == self@,
    {
        TokenMetadata {
            mint: self.mint.clone(),
            name: self.name.clone(),
            symbol: self.symbol.clone(),
            decimals: self.decimals,
            supply: self.supply,
        }
    }
}

impl PartialEq for TokenMetadata {
    fn eq(&self, other: &Self) -> (same: bool) {
        self.mint == other.mint && self.name == other.name && self.symbol == other.symbol
            && self.decimals == other.decimals && self.supply == other.supply
    }
}

impl vstd::std_specs::cmp::PartialEqSpecImpl for TokenMetadata {
    open spec fn obeys_eq_spec() -> bool {
        true
    }

    open spec fn eq_spec(&self, other: &Self) -> bool {
        self@ == other@
    }
}

/// A cached price of one token.
///
/// The price is a 64-bit binary number of IEEE 754; the record holds its bit
/// pattern, which the cache hands back unchanged.
#[derive(Debug)]
pub struct PriceRecord {
    pub mint: String,
    pub price_bits: u64,
    /// When the price was written, in seconds since the epoch.
    pub last_updated: i64,
}

/// The mathematical value of a [`PriceRecord`].
pub struct PriceRecordView {
    pub mint: Seq<char>,
    pub price_bits: u64,
    pub last_updated: i64,
}

impl View for PriceRecord {
    type V = PriceRecordView;

    open spec fn view(&self) -> PriceRecordView {
        PriceRecordView {
            mint: self.mint@,
            price_bits: self.price_bits,
            last_updated: self.last_updated,
        }
    }
}

/// Why an operation ended without a value.
#[derive(Debug, Clone, Copy, PartialEq, Eq, Structural)]
pub enum TokenError {
    /// The mint identifier is not an address of the ledger.
    InvalidIdentifier,
    /// The ledger holds no account at an address that was read.
    NotFound,
    /// An account's bytes do not have the expected layout.
    DecodeError,
    /// The ledger or the quote service could not be reached.
    NetworkError,
    /// The quote service's answer could not be read.
    ParseError,
    /// The cache store failed.
    StorageError,
}

} // verus!
