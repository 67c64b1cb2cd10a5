//! A model of what surrounds the service, and what holds of the service in
//! it.
//!
//! The model is ghost code. It answers every action as a cache store that is
//! keyed by mint, a ledger, a quote service and a clock would, and so gives
//! each operation an outcome from beginning to end: its result, the world it
//! leaves behind, and how often it went outside.

use vstd::prelude::*;

use crate::fetch::{FetchStateView, LedgerReplyView};
use crate::quote::{QuoteReplyView, QuoteStateView};
use crate::service::{
    metadata_begin, metadata_step, price_begin, price_step, MetadataActionView,
    MetadataEventView, MetadataStateView, MetadataStepView, PriceActionView, PriceEventView,
    PriceStateView, PriceStepView,
};
use crate::types::{PriceRecordView, TokenError, TokenMetadataView};

verus! {

/// A row of the price table: what is stored beside the mint.
pub struct PriceRow {
    pub price_bits: u64,
    pub last_updated: i64,
}

/// The world around the service.
#[verifier::ext_equal]
pub struct World {
    /// The metadata table: at most one row for a mint.
    pub metadata_rows: Map<Seq<char>, TokenMetadataView>,
    /// The price table: at most one row for a mint.
    pub price_rows: Map<Seq<char>, PriceRow>,
    /// The accounts of the ledger, by address.
    pub accounts: Map<Seq<u8>, Seq<u8>>,
    /// The bodies that the quote service answers with, by address.
    pub quotes: Map<Seq<char>, Seq<u8>>,
    /// The texts that denote a number, with its bit pattern.
    pub numbers: Map<Seq<char>, u64>,
    /// The time, in seconds since the epoch.
    pub now: i64,
}

/// What a table of the cache store answers when it is asked for the row of
/// `mint`.
pub open spec fn cache_get<Row>(rows: Map<Seq<char>, Row>, mint: Seq<char>) -> Option<Row> {
    if rows.dom().contains(mint) {
        Some(rows[mint])
    } else {
        None
    }
}

/// A table of the cache store after `row` was written for `mint`: the row
/// is inserted, or put in the place of the row that the mint had.
pub open spec fn cache_put<Row>(rows: Map<Seq<char>, Row>, mint: Seq<char>, row: Row) -> Map<
    Seq<char>,
    Row,
> {
    rows.insert(mint, row)
}

/// The event that an action of a metadata lookup leads to.
pub open spec fn metadata_reply(world: World, action: MetadataActionView) -> MetadataEventView {
    match action {
        MetadataActionView::Lookup { mint } => MetadataEventView::Row(
            cache_get(world.metadata_rows, mint),
        ),
        MetadataActionView::Read { address } => MetadataEventView::Ledger(
            if world.accounts.dom().contains(address) {
                LedgerReplyView::Account(world.accounts[address])
            } else {
                LedgerReplyView::Missing
            },
        ),
        MetadataActionView::Save { metadata } => MetadataEventView::Saved,
    }
}

/// The world after an action of a metadata lookup: a save writes the row of
/// the record's mint, and nothing else changes anything.
pub open spec fn metadata_effect(world: World, action: MetadataActionView) -> World {
    match action {
        MetadataActionView::Save { metadata } => World {
            metadata_rows: cache_put(world.metadata_rows, metadata.mint, metadata),
            ..world
        },
        _ => world,
    }
}

/// The outcome of a metadata lookup.
pub struct MetadataRun {
    pub result: Result<TokenMetadataView, TokenError>,
    pub world: World,
    /// How many accounts were read from the ledger.
    pub reads: nat,
}

/// How many actions a metadata lookup may still ask for, this one included.
pub open spec fn metadata_rank(state: MetadataStateView) -> nat {
    match state {
        MetadataStateView::Lookup { .. } => 4,
        MetadataStateView::Fetching(FetchStateView::Mint { .. }) => 3,
        MetadataStateView::Fetching(FetchStateView::Metadata { .. }) => 2,
        MetadataStateView::Saving { .. } => 1,
    }
}

/// Runs a metadata lookup to its end: performs `action` in `world`, goes on
/// from `state` with the event, and so on.
pub open spec fn metadata_run(
    state: MetadataStateView,
    action: MetadataActionView,
    world: World,
    reads: nat,
) -> MetadataRun
    decreases metadata_rank(state),
{
    let after = metadata_effect(world, action);
    let count = if action is Read {
        reads + 1
    } else {
        reads
    };
    match metadata_step(state, metadata_reply(world, action)) {
        MetadataStepView::Finish(result) => MetadataRun { result, world: after, reads: count },
        MetadataStepView::Continue { action: next_action, state: next_state } => {
            if metadata_rank(next_state) < metadata_rank(state) {
                metadata_run(next_state, next_action, after, count)
            } else {
                MetadataRun { result: Err(TokenError::StorageError), world: after, reads: count }
            }
        },
    }
}

/// The outcome of `get_metadata` for `mint` in `world`.
pub open spec fn get_metadata(world: World, mint: Seq<char>) -> MetadataRun {
    match metadata_begin(mint) {
        MetadataStepView::Continue { action, state } => metadata_run(state, action, world, 0),
        MetadataStepView::Finish(result) => MetadataRun { result, world, reads: 0 },
    }
}

/// The event that an action of a price lookup leads to.
pub open spec fn price_reply(world: World, action: PriceActionView) -> PriceEventView {
    match action {
        PriceActionView::Lookup { mint } => PriceEventView::Row {
            row: match cache_get(world.price_rows, mint) {
                Some(row) => Some(
                    PriceRecordView {
                        mint,
                        price_bits: row.price_bits,
                        last_updated: row.last_updated,
                    },
                ),
                None => None,
            },
            now: world.now,
        },
        PriceActionView::Get { url } => PriceEventView::Quote(
            if world.quotes.dom().contains(url) {
                QuoteReplyView::Body(world.quotes[url])
            } else {
                QuoteReplyView::Failed
            },
        ),
        PriceActionView::Parse { text } => PriceEventView::Quote(
            if world.numbers.dom().contains(text) {
                QuoteReplyView::Number(world.numbers[text])
            } else {
                QuoteReplyView::Failed
            },
        ),
        PriceActionView::Save { mint, price_bits } => PriceEventView::Saved,
    }
}

/// The world after an action of a price lookup: a save writes the row of the
/// mint with the time of the clock, and nothing else changes anything.
pub open spec fn price_effect(world: World, action: PriceActionView) -> World {
    match action {
        PriceActionView::Save { mint, price_bits } => World {
            price_rows: cache_put(
                world.price_rows,
                mint,
                PriceRow { price_bits, last_updated: world.now },
            ),
            ..world
        },
        _ => world,
    }
}

/// The outcome of a price lookup.
pub struct PriceRun {
    pub result: Result<u64, TokenError>,
    pub world: World,
    /// How many requests were sent to the quote service.
    pub requests: nat,
}

/// How many actions a price lookup may still ask for, this one included.
pub open spec fn price_rank(state: PriceStateView) -> nat {
    match state {
        PriceStateView::Lookup { .. } => 4,
        PriceStateView::Quoting { quote: QuoteStateView::Body { .. }, .. } => 3,
        PriceStateView::Quoting { quote: QuoteStateView::Number, .. } => 2,
        PriceStateView::Saving { .. } => 1,
    }
}

/// Runs a price lookup to its end: performs `action` in `world`, goes on from
/// `state` with the event, and so on.
pub open spec fn price_run(
    state: PriceStateView,
    action: PriceActionView,
    world: World,
    requests: nat,
) -> PriceRun
    decreases price_rank(state),
{
    let after = price_effect(world, action);
    let count = if action is Get {
        requests + 1
    } else {
        requests
    };
    match price_step(state, price_reply(world, action)) {
        PriceStepView::Finish(result) => PriceRun { result, world: after, requests: count },
        PriceStepView::Continue { action: next_action, state: next_state } => {
            if price_rank(next_state) < price_rank(state) {
                price_run(next_state, next_action, after, count)
            } else {
                PriceRun { result: Err(TokenError::StorageError), world: after, requests: count }
            }
        },
    }
}

/// The outcome of `get_price` for `mint` in `world`, where prices stay valid
/// for `window` seconds.
pub open spec fn get_price(world: World, mint: Seq<char>, window: u64) -> PriceRun {
    match price_begin(mint, window) {
        PriceStepView::Continue { action, state } => price_run(state, action, world, 0),
        PriceStepView::Finish(result) => PriceRun { result, world, requests: 0 },
    }
}

/// Every step of a metadata lookup leaves fewer actions to ask for, so a run
/// never stops short of the end of the lookup.
pub proof fn metadata_steps_descend(state: MetadataStateView, event: MetadataEventView)
    ensures
        metadata_step(state, event) matches MetadataStepView::Continue { state: next, .. }
            ==> metadata_rank(next) < metadata_rank(state),
{
}

/// Every step of a price lookup leaves fewer actions to ask for, so a run
/// never stops short of the end of the lookup.
pub proof fn price_steps_descend(state: PriceStateView, event: PriceEventView)
    ensures
        price_step(state, event) matches PriceStepView::Continue { state: next, .. }
            ==> price_rank(next) < price_rank(state),
{
}

} // verus!
