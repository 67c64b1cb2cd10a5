//! The orchestrator: the two read-through operations, `get_metadata` and
//! `get_price`.
//!
//! Each operation is a small machine. It asks for one action at a time (look
//! a row up, read an account, send a request, write a row) and goes on when
//! it is told what came of it. In every state one kind of event is expected;
//! any other event counts as the failure of the action that was asked for.

use vstd::prelude::*;

use crate::chain::Address;
use crate::fetch::{
    fetch_begin, fetch_step, fetch_token_metadata, FetchState, FetchStateView, FetchStep,
    FetchStepView, LedgerReply, LedgerReplyView,
};
use crate::quote::{
    begin_quote, quote_begin, quote_step, QuoteReply, QuoteReplyView, QuoteState, QuoteStateView,
    QuoteStep, QuoteStepView,
};
use crate::types::{
    PriceRecord, PriceRecordView, TokenError, TokenMetadata, TokenMetadataView,
};

verus! {

/// For how many seconds a cached price stays valid.
pub const PRICE_CACHE_SECONDS: u64 = 60;

/// Whether a price written at `last_updated` is still valid at `now`, where
/// prices stay valid for `window` seconds: its age is at most the window.
pub open spec fn is_fresh(last_updated: int, now: int, window: int) -> bool {
    now - last_updated <= window
}

/// Decides whether a price written at `last_updated` is still valid at `now`.
pub fn price_is_fresh(last_updated: i64, now: i64, window: u64) -> (fresh: bool)
    ensures
        fresh == is_fresh(last_updated as int, now as int, window as int),
{
    now as i128 - last_updated as i128 <= window as i128
}

/// An event of a metadata lookup.
#[derive(Debug)]
pub enum MetadataEvent {
    /// The cache was asked: the row of the mint, if it has one.
    Row(Option<TokenMetadata>),
    /// The ledger was asked for an account.
    Ledger(LedgerReply),
    /// The cache has written the row.
    Saved,
    /// The action failed.
    Failed,
}

/// The mathematical value of a [`MetadataEvent`].
pub enum MetadataEventView {
    Row(Option<TokenMetadataView>),
    Ledger(LedgerReplyView),
    Saved,
    Failed,
}

impl View for MetadataEvent {
    type V = MetadataEventView;

    open spec fn view(&self) -> MetadataEventView {
        match self {
            MetadataEvent::Row(Some(metadata)) => MetadataEventView::Row(Some(metadata@)),
            MetadataEvent::Row(None) => MetadataEventView::Row(None),
            MetadataEvent::Ledger(reply) => MetadataEventView::Ledger(reply@),
            MetadataEvent::Saved => MetadataEventView::Saved,
            MetadataEvent::Failed => MetadataEventView::Failed,
        }
    }
}

/// What a metadata lookup asks its caller to do.
#[derive(Debug)]
pub enum MetadataAction {
    /// Ask the cache for the row of `mint`.
    Lookup { mint: String },
    /// Ask the ledger for the account at `address`.
    Read { address: Address },
    /// Write `metadata` to the cache, over the row of its mint if there is one.
    Save { metadata: TokenMetadata },
}

/// The mathematical value of a [`MetadataAction`].
pub enum MetadataActionView {
    Lookup { mint: Seq<char> },
    Read { address: Seq<u8> },
    Save { metadata: TokenMetadataView },
}

impl View for MetadataAction {
    type V = MetadataActionView;

    open spec fn view(&self) -> MetadataActionView {
        match self {
            MetadataAction::Lookup { mint } => MetadataActionView::Lookup { mint: mint@ },
            MetadataAction::Read { address } => MetadataActionView::Read { address: address@ },
            MetadataAction::Save { metadata } => MetadataActionView::Save { metadata: metadata@ },
        }
    }
}

/// Where a metadata lookup stands while it waits.
#[derive(Debug)]
pub enum MetadataState {
    /// The cache is being asked for the row of `mint`.
    Lookup { mint: String },
    /// The cache had no row; the fetcher is at work.
    Fetching(FetchState),
    /// The fetched record is being written to the cache.
    Saving { metadata: TokenMetadata },
}

/// The mathematical value of a [`MetadataState`].
pub enum MetadataStateView {
    Lookup { mint: Seq<char> },
    Fetching(FetchStateView),
    Saving { metadata: TokenMetadataView },
}

impl View for MetadataState {
    type V = MetadataStateView;

    open spec fn view(&self) -> MetadataStateView {
        match self {
            MetadataState::Lookup { mint } => MetadataStateView::Lookup { mint: mint@ },
            MetadataState::Fetching(fetch) => MetadataStateView::Fetching(fetch@),
            MetadataState::Saving { metadata } => MetadataStateView::Saving { metadata: metadata@ },
        }
    }
}

/// What a metadata lookup asks for next, or how it ended.
#[derive(Debug)]
pub enum MetadataStep {
    /// Perform `action`, then go on from `state` with the event.
    Continue { action: MetadataAction, state: MetadataState },
    /// The lookup is over.
    Finish(Result<TokenMetadata, TokenError>),
}

/// The mathematical value of a [`MetadataStep`].
pub enum MetadataStepView {
    Continue { action: MetadataActionView, state: MetadataStateView },
    Finish(Result<TokenMetadataView, TokenError>),
}

impl View for MetadataStep {
    type V = MetadataStepView;

    open spec fn view(&self) -> MetadataStepView {
        match self {
            MetadataStep::Continue { action, state } => MetadataStepView::Continue {
                action: action@,
                state: state@,
            },
            MetadataStep::Finish(Ok(metadata)) => MetadataStepView::Finish(Ok(metadata@)),
            MetadataStep::Finish(Err(error)) => MetadataStepView::Finish(Err(*error)),
        }
    }
}

/// How a metadata lookup begins: by asking the cache.
pub open spec fn metadata_begin(mint: Seq<char>) -> MetadataStepView {
    MetadataStepView::Continue {
        action: MetadataActionView::Lookup { mint },
        state: MetadataStateView::Lookup { mint },
    }
}

/// What a step of the fetcher means to the lookup that runs it: a read is
/// passed on, a fetched record is written to the cache before it is handed
/// out, and a failure ends the lookup.
pub open spec fn metadata_after_fetch(step: FetchStepView) -> MetadataStepView {
    match step {
        FetchStepView::Read { address, state } => MetadataStepView::Continue {
            action: MetadataActionView::Read { address },
            state: MetadataStateView::Fetching(state),
        },
        FetchStepView::Finish(Ok(metadata)) => MetadataStepView::Continue {
            action: MetadataActionView::Save { metadata },
            state: MetadataStateView::Saving { metadata },
        },
        FetchStepView::Finish(Err(error)) => MetadataStepView::Finish(Err(error)),
    }
}

/// How a metadata lookup goes on from `state` when `event` comes in.
///
/// A row of the cache ends the lookup with that row, whatever its age. No
/// row starts the fetcher. When the fetched record has been written, the
/// lookup ends with it. An event that the state does not expect ends the
/// lookup: with `StorageError` while the cache is asked or written, with
/// `NetworkError` while the ledger is read.
pub open spec fn metadata_step(state: MetadataStateView, event: MetadataEventView)
    -> MetadataStepView {
    match state {
        MetadataStateView::Lookup { mint } => match event {
            MetadataEventView::Row(Some(metadata)) => MetadataStepView::Finish(Ok(metadata)),
            MetadataEventView::Row(None) => metadata_after_fetch(fetch_begin(mint)),
            _ => MetadataStepView::Finish(Err(TokenError::StorageError)),
        },
        MetadataStateView::Fetching(fetch) => match event {
            MetadataEventView::Ledger(reply) => metadata_after_fetch(fetch_step(fetch, reply)),
            _ => MetadataStepView::Finish(Err(TokenError::NetworkError)),
        },
        MetadataStateView::Saving { metadata } => match event {
            MetadataEventView::Saved => MetadataStepView::Finish(Ok(metadata)),
            _ => MetadataStepView::Finish(Err(TokenError::StorageError)),
        },
    }
}

/// An event of a price lookup.
#[derive(Debug)]
pub enum PriceEvent {
    /// The cache was asked at the time `now`: the row of the mint, if it has
    /// one.
    Row { row: Option<PriceRecord>, now: i64 },
    /// Something came back for the fetch of the price.
    Quote(QuoteReply),
    /// The cache has written the row.
    Saved,
    /// The action failed.
    Failed,
}

/// The mathematical value of a [`PriceEvent`].
pub enum PriceEventView {
    Row { row: Option<PriceRecordView>, now: i64 },
    Quote(QuoteReplyView),
    Saved,
    Failed,
}

impl View for PriceEvent {
    type V = PriceEventView;

    open spec fn view(&self) -> PriceEventView {
        match self {
            PriceEvent::Row { row: Some(record), now } => PriceEventView::Row {
                row: Some(record@),
                now: *now,
            },
            PriceEvent::Row { row: None, now } => PriceEventView::Row { row: None, now: *now },
            PriceEvent::Quote(reply) => PriceEventView::Quote(reply@),
            PriceEvent::Saved => PriceEventView::Saved,
            PriceEvent::Failed => PriceEventView::Failed,
        }
    }
}

/// What a price lookup asks its caller to do.
#[derive(Debug)]
pub enum PriceAction {
    /// Ask the cache for the row of `mint`, and the clock for the time.
    Lookup { mint: String },
    /// Send a GET request to `url`.
    Get { url: String },
    /// Read `text` as a number.
    Parse { text: String },
    /// Write the price of `mint` to the cache with the time of the clock,
    /// over the row of the mint if there is one.
    Save { mint: String, price_bits: u64 },
}

/// The mathematical value of a [`PriceAction`].
pub enum PriceActionView {
    Lookup { mint: Seq<char> },
    Get { url: Seq<char> },
    Parse { text: Seq<char> },
    Save { mint: Seq<char>, price_bits: u64 },
}

impl View for PriceAction {
    type V = PriceActionView;

    open spec fn view(&self) -> PriceActionView {
        match self {
            PriceAction::Lookup { mint } => PriceActionView::Lookup { mint: mint@ },
            PriceAction::Get { url } => PriceActionView::Get { url: url@ },
            PriceAction::Parse { text } => PriceActionView::Parse { text: text@ },
            PriceAction::Save { mint, price_bits } => PriceActionView::Save {
                mint: mint@,
                price_bits: *price_bits,
            },
        }
    }
}

/// Where a price lookup stands while it waits.
#[derive(Debug)]
pub enum PriceState {
    /// The cache is being asked for the row of `mint`; prices stay valid for
    /// `window` seconds.
    Lookup { mint: String, window: u64 },
    /// The cache had no valid row; the price of `mint` is being fetched.
    Quoting { mint: String, quote: QuoteState },
    /// The fetched price is being written to the cache.
    Saving { price_bits: u64 },
}

/// The mathematical value of a [`PriceState`].
pub enum PriceStateView {
    Lookup { mint: Seq<char>, window: u64 },
    Quoting { mint: Seq<char>, quote: QuoteStateView },
    Saving { price_bits: u64 },
}

impl View for PriceState {
    type V = PriceStateView;

    open spec fn view(&self) -> PriceStateView {
        match self {
            PriceState::Lookup { mint, window } => PriceStateView::Lookup {
                mint: mint@,
                window: *window,
            },
            PriceState::Quoting { mint, quote } => PriceStateView::Quoting {
                mint: mint@,
                quote: quote@,
            },
            PriceState::Saving { price_bits } => PriceStateView::Saving { price_bits: *price_bits },
        }
    }
}

/// What a price lookup asks for next, or how it ended.
#[derive(Debug)]
pub enum PriceStep {
    /// Perform `action`, then go on from `state` with the event.
    Continue { action: PriceAction, state: PriceState },
    /// The lookup is over; a price comes as its bit pattern.
    Finish(Result<u64, TokenError>),
}

/// The mathematical value of a [`PriceStep`].
pub enum PriceStepView {
    Continue { action: PriceActionView, state: PriceStateView },
    Finish(Result<u64, TokenError>),
}

impl View for PriceStep {
    type V = PriceStepView;

    open spec fn view(&self) -> PriceStepView {
        match self {
            PriceStep::Continue { action, state } => PriceStepView::Continue {
                action: action@,
                state: state@,
            },
            PriceStep::Finish(result) => PriceStepView::Finish(*result),
        }
    }
}

/// How a price lookup begins: by asking the cache.
pub open spec fn price_begin(mint: Seq<char>, window: u64) -> PriceStepView {
    PriceStepView::Continue {
        action: PriceActionView::Lookup { mint },
        state: PriceStateView::Lookup { mint, window },
    }
}

/// What a step of the price fetch means to the lookup that runs it: a request
/// and a text to read are passed on, a fetched price is written to the cache
/// before it is handed out, and a failure ends the lookup.
pub open spec fn price_after_quote(mint: Seq<char>, step: QuoteStepView) -> PriceStepView {
    match step {
        QuoteStepView::Get { url, state } => PriceStepView::Continue {
            action: PriceActionView::Get { url },
            state: PriceStateView::Quoting { mint, quote: state },
        },
        QuoteStepView::Parse { text, state } => PriceStepView::Continue {
            action: PriceActionView::Parse { text },
            state: PriceStateView::Quoting { mint, quote: state },
        },
        QuoteStepView::Finish(Ok(price_bits)) => PriceStepView::Continue {
            action: PriceActionView::Save { mint, price_bits },
            state: PriceStateView::Saving { price_bits },
        },
        QuoteStepView::Finish(Err(error)) => PriceStepView::Finish(Err(error)),
    }
}

/// How a price lookup goes on from `state` when `event` comes in.
///
/// A row of the cache that is still valid ends the lookup with its price. No
/// row, or one that is too old, starts the fetch. When the fetched price has
/// been written, the lookup ends with it. An event that the state does not
/// expect ends the lookup with `StorageError` while the cache is asked or
/// written; during the fetch it counts as a failed reply.
pub open spec fn price_step(state: PriceStateView, event: PriceEventView) -> PriceStepView {
    match state {
        PriceStateView::Lookup { mint, window } => match event {
            PriceEventView::Row { row, now } => if row matches Some(record) && is_fresh(
                record.last_updated as int,
                now as int,
                window as int,
            ) {
                PriceStepView::Finish(Ok(row->0.price_bits))
            } else {
                price_after_quote(mint, quote_begin(mint))
            },
            _ => PriceStepView::Finish(Err(TokenError::StorageError)),
        },
        PriceStateView::Quoting { mint, quote } => match event {
            PriceEventView::Quote(reply) => price_after_quote(mint, quote_step(quote, reply)),
            _ => price_after_quote(mint, quote_step(quote, QuoteReplyView::Failed)),
        },
        PriceStateView::Saving { price_bits } => match event {
            PriceEventView::Saved => PriceStepView::Finish(Ok(price_bits)),
            _ => PriceStepView::Finish(Err(TokenError::StorageError)),
        },
    }
}

fn after_fetch(step: FetchStep) -> (next: MetadataStep)
    ensures
        next@ == metadata_after_fetch(step@),
{
    match step {
        FetchStep::Read { address, state } => MetadataStep::Continue {
            action: MetadataAction::Read { address },
            state: MetadataState::Fetching(state),
        },
        FetchStep::Finish(Ok(metadata)) => MetadataStep::Continue {
            action: MetadataAction::Save { metadata: metadata.clone() },
            state: MetadataState::Saving { metadata },
        },
        FetchStep::Finish(Err(error)) => MetadataStep::Finish(Err(error)),
    }
}

fn after_quote(mint: String, step: QuoteStep) -> (next: PriceStep)
    ensures
        next@ == price_after_quote(mint@, step@),
{
    match step {
        QuoteStep::Get { url, state } => PriceStep::Continue {
            action: PriceAction::Get { url },
            state: PriceState::Quoting { mint, quote: state },
        },
        QuoteStep::Parse { text, state } => PriceStep::Continue {
            action: PriceAction::Parse { text },
            state: PriceState::Quoting { mint, quote: state },
        },
        QuoteStep::Finish(Ok(price_bits)) => PriceStep::Continue {
            action: PriceAction::Save { mint, price_bits },
            state: PriceState::Saving { price_bits },
        },
        QuoteStep::Finish(Err(error)) => PriceStep::Finish(Err(error)),
    }
}

impl MetadataState {
    /// Goes on with the event that the last action led to.
    pub fn step(self, event: MetadataEvent) -> (step: MetadataStep)
        ensures
            step@ == metadata_step(self@, event@),
    {
        match self {
            MetadataState::Lookup { mint } => match event {
                MetadataEvent::Row(Some(metadata)) => MetadataStep::Finish(Ok(metadata)),
                MetadataEvent::Row(None) => after_fetch(fetch_token_metadata(mint.as_str())),
                _ => MetadataStep::Finish(Err(TokenError::StorageError)),
            },
            MetadataState::Fetching(fetch) => match event {
                MetadataEvent::Ledger(reply) => after_fetch(fetch.step(reply)),
                _ => MetadataStep::Finish(Err(TokenError::NetworkError)),
            },
            MetadataState::Saving { metadata } => match event {
                MetadataEvent::Saved => MetadataStep::Finish(Ok(metadata)),
                _ => MetadataStep::Finish(Err(TokenError::StorageError)),
            },
        }
    }
}

impl PriceState {
    /// Goes on with the event that the last action led to.
    pub fn step(self, event: PriceEvent) -> (step: PriceStep)
        ensures
            step@ == price_step(self@, event@),
    {
        match self {
            PriceState::Lookup { mint, window } => match event {
                PriceEvent::Row { row: Some(record), now } => {
                    if price_is_fresh(record.last_updated, now, window) {
                        PriceStep::Finish(Ok(record.price_bits))
                    } else {
                        let begun = begin_quote(mint.as_str());
                        after_quote(mint, begun)
                    }
                },
                PriceEvent::Row { row: None, now: _ } => {
                    let begun = begin_quote(mint.as_str());
                    after_quote(mint, begun)
                },
                _ => PriceStep::Finish(Err(TokenError::StorageError)),
            },
            PriceState::Quoting { mint, quote } => match event {
                PriceEvent::Quote(reply) => after_quote(mint, quote.step(reply)),
                _ => after_quote(mint, quote.step(QuoteReply::Failed)),
            },
            PriceState::Saving { price_bits } => match event {
                PriceEvent::Saved => PriceStep::Finish(Ok(price_bits)),
                _ => PriceStep::Finish(Err(TokenError::StorageError)),
            },
        }
    }
}

/// The policy of the service: how long a cached price stays valid.
#[derive(Debug, Clone, Copy)]
pub struct TokenService {
    /// In seconds.
    pub price_cache_duration: u64,
}

impl TokenService {
    /// A service whose cached prices stay valid for 60 seconds.
    pub fn new() -> (service: Self)
        ensures
            service.price_cache_duration == PRICE_CACHE_SECONDS,
    {
        TokenService { price_cache_duration: PRICE_CACHE_SECONDS }
    }

    /// Begins to look up the metadata of `mint`: the cache first, the ledger
    /// where the cache has no row.
    pub fn get_metadata(&self, mint: &str) -> (step: MetadataStep)
        ensures
            step@ == metadata_begin(mint@),
    {
        MetadataStep::Continue {
            action: MetadataAction::Lookup { mint: mint.to_owned() },
            state: MetadataState::Lookup { mint: mint.to_owned() },
        }
    }

    /// Begins to fetch the price of `mint` from the quote service, past the
    /// cache.
    pub fn fetch_mint_price(&self, mint: &str) -> (step: QuoteStep)
        ensures
            step@ == quote_begin(mint@),
    {
        begin_quote(mint)
    }

    /// Begins to look up the price of `mint`: the cache first, the quote
    /// service where the cache has no row that is still valid.
    pub fn get_price(&self, mint: &str) -> (step: PriceStep)
        ensures
            step@ == price_begin(mint@, self.price_cache_duration),
    {
        PriceStep::Continue {
            action: PriceAction::Lookup { mint: mint.to_owned() },
            state: PriceState::Lookup { mint: mint.to_owned(), window: self.price_cache_duration },
        }
    }
}

} // verus!
