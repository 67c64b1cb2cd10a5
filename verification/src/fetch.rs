//! The metadata fetcher: from a mint identifier to the record that describes
//! the token, by way of two accounts of the ledger.
//!
//! The fetcher reads no account itself. It says which address to read next,
//! and goes on when it is told what the ledger answered.

use vstd::prelude::*;

use crate::chain::{
    decode_metadata_account, decode_mint_account, decoded_address, describe, described,
    is_initialized_mint, metadata_address, metadata_address_of, metadata_text, mint_state,
    parse_mint, Address, MintState,
};
use crate::types::{TokenError, TokenMetadata, TokenMetadataView};

verus! {

/// What the ledger answered when an account was read.
#[derive(Debug)]
pub enum LedgerReply {
    /// The bytes that the account holds.
    Account(Vec<u8>),
    /// There is no account at the address.
    Missing,
    /// The ledger could not be asked.
    Unreachable,
}

/// The mathematical value of a [`LedgerReply`].
pub enum LedgerReplyView {
    Account(Seq<u8>),
    Missing,
    Unreachable,
}

impl View for LedgerReply {
    type V = LedgerReplyView;

    open spec fn view(&self) -> LedgerReplyView {
        match self {
            LedgerReply::Account(data) => LedgerReplyView::Account(data@),
            LedgerReply::Missing => LedgerReplyView::Missing,
            LedgerReply::Unreachable => LedgerReplyView::Unreachable,
        }
    }
}

/// Where a fetch stands while it waits for the ledger.
#[derive(Debug)]
pub enum FetchState {
    /// The mint account at `address` is being read.
    Mint { mint: String, address: Address },
    /// The metadata account is being read; the mint account said `state`.
    Metadata { mint: String, state: MintState },
}

/// The mathematical value of a [`FetchState`].
pub enum FetchStateView {
    Mint { mint: Seq<char>, address: Seq<u8> },
    Metadata { mint: Seq<char>, state: MintState },
}

impl View for FetchState {
    type V = FetchStateView;

    open spec fn view(&self) -> FetchStateView {
        match self {
            FetchState::Mint { mint, address } => FetchStateView::Mint {
                mint: mint@,
                address: address@,
            },
            FetchState::Metadata { mint, state } => FetchStateView::Metadata {
                mint: mint@,
                state: *state,
            },
        }
    }
}

/// What a fetch asks for next, or how it ended.
#[derive(Debug)]
pub enum FetchStep {
    /// Read the account at `address`, then go on from `state` with the reply.
    Read { address: Address, state: FetchState },
    /// The fetch is over.
    Finish(Result<TokenMetadata, TokenError>),
}

/// The mathematical value of a [`FetchStep`].
pub enum FetchStepView {
    Read { address: Seq<u8>, state: FetchStateView },
    Finish(Result<TokenMetadataView, TokenError>),
}

impl View for FetchStep {
    type V = FetchStepView;

    open spec fn view(&self) -> FetchStepView {
        match self {
            FetchStep::Read { address, state } => FetchStepView::Read {
                address: address@,
                state: state@,
            },
            FetchStep::Finish(Ok(metadata)) => FetchStepView::Finish(Ok(metadata@)),
            FetchStep::Finish(Err(error)) => FetchStepView::Finish(Err(*error)),
        }
    }
}

/// How a fetch of `mint` begins: with the mint account, unless the identifier
/// is no address.
pub open spec fn fetch_begin(mint: Seq<char>) -> FetchStepView {
    match decoded_address(mint) {
        Some(address) => FetchStepView::Read {
            address,
            state: FetchStateView::Mint { mint, address },
        },
        None => FetchStepView::Finish(Err(TokenError::InvalidIdentifier)),
    }
}

/// How a fetch goes on from `state` when the ledger answers `reply`.
///
/// A ledger that cannot be asked ends it with `NetworkError`, an account that
/// does not exist with `NotFound`, bytes of another layout with
/// `DecodeError`. After the mint account comes the metadata account, at the
/// address derived from the mint's; a mint for which no such address exists
/// has no metadata account, and the fetch ends with `NotFound`. The metadata
/// account ends the fetch with the record.
pub open spec fn fetch_step(state: FetchStateView, reply: LedgerReplyView) -> FetchStepView {
    match reply {
        LedgerReplyView::Unreachable => FetchStepView::Finish(Err(TokenError::NetworkError)),
        LedgerReplyView::Missing => FetchStepView::Finish(Err(TokenError::NotFound)),
        LedgerReplyView::Account(data) => match state {
            FetchStateView::Mint { mint, address } => if !is_initialized_mint(data) {
                FetchStepView::Finish(Err(TokenError::DecodeError))
            } else {
                match metadata_address_of(address) {
                    Some(next) => FetchStepView::Read {
                        address: next,
                        state: FetchStateView::Metadata { mint, state: mint_state(data) },
                    },
                    None => FetchStepView::Finish(Err(TokenError::NotFound)),
                }
            },
            FetchStateView::Metadata { mint, state } => match metadata_text(data) {
                Some((name, symbol)) => FetchStepView::Finish(
                    Ok(described(mint, state, name, symbol)),
                ),
                None => FetchStepView::Finish(Err(TokenError::DecodeError)),
            },
        },
    }
}

/// Begins to fetch the metadata of `mint`.
pub fn fetch_token_metadata(mint: &str) -> (step: FetchStep)
    ensures
        step@ == fetch_begin(mint@),
{
    match parse_mint(mint) {
        Ok(address) => FetchStep::Read {
            address,
            state: FetchState::Mint { mint: mint.to_owned(), address },
        },
        Err(error) => FetchStep::Finish(Err(error)),
    }
}

impl FetchState {
    /// Goes on with what the ledger answered to the last read.
    pub fn step(self, reply: LedgerReply) -> (step: FetchStep)
        ensures
            step@ == fetch_step(self@, reply@),
    {
        match reply {
            LedgerReply::Unreachable => FetchStep::Finish(Err(TokenError::NetworkError)),
            LedgerReply::Missing => FetchStep::Finish(Err(TokenError::NotFound)),
            LedgerReply::Account(data) => match self {
                FetchState::Mint { mint, address } => match decode_mint_account(data.as_slice()) {
                    Ok(state) => match metadata_address(&address) {
                        Some(next) => FetchStep::Read {
                            address: next,
                            state: FetchState::Metadata { mint, state },
                        },
                        None => FetchStep::Finish(Err(TokenError::NotFound)),
                    },
                    Err(error) => FetchStep::Finish(Err(error)),
                },
                FetchState::Metadata { mint, state } => match decode_metadata_account(
                    data.as_slice(),
                ) {
                    Ok(text) => FetchStep::Finish(Ok(describe(mint.as_str(), state, &text))),
                    Err(error) => FetchStep::Finish(Err(error)),
                },
            },
        }
    }
}

} // verus!
