//! What holds of the two operations, proved over the model of the world.

use vstd::prelude::*;

use crate::chain::{
    decoded_address, described, is_initialized_mint, metadata_address_of, metadata_text,
    mint_state,
};
use crate::model::{
    cache_get, cache_put, get_metadata, get_price, metadata_run, price_effect, price_run,
    PriceRow, World,
};
use crate::quote::{
    document_texts, price_path, quote_step, quote_url, quoted_text, QuoteReplyView,
    QuoteStateView, QuoteStepView,
};
use crate::service::{is_fresh, PriceActionView};
use crate::types::{TokenError, TokenMetadataView};

verus! {

/// A table of the cache store holds at most one row for a mint, and a write
/// is an upsert: the row that was written is the row that is read, the rows
/// of other mints stay as they were, the mint has one row however often it
/// was written, and writing a row again changes nothing.
pub proof fn cache_put_is_an_upsert<Row>(
    rows: Map<Seq<char>, Row>,
    mint: Seq<char>,
    row: Row,
    other: Seq<char>,
)
    ensures
        cache_get(cache_put(rows, mint, row), mint) == Some(row),
        other != mint ==> cache_get(cache_put(rows, mint, row), other) == cache_get(rows, other),
        cache_put(rows, mint, row).dom() == rows.dom().insert(mint),
        cache_put(rows, mint, row).dom().filter(|key: Seq<char>| key == mint).len() == 1,
        cache_put(cache_put(rows, mint, row), mint, row) == cache_put(rows, mint, row),
{
    let once = cache_put(rows, mint, row);
    assert(once.dom().filter(|key: Seq<char>| key == mint) =~= set![mint]);
    assert(cache_put(once, mint, row) =~= once);
}

/// Of two writes for one mint the later one stays.
pub proof fn cache_put_overwrites<Row>(
    rows: Map<Seq<char>, Row>,
    mint: Seq<char>,
    first: Row,
    second: Row,
)
    ensures
        cache_put(cache_put(rows, mint, first), mint, second) == cache_put(rows, mint, second),
{
    assert(cache_put(cache_put(rows, mint, first), mint, second) =~= cache_put(rows, mint, second));
}

/// A metadata lookup that succeeds returns the same record when it is
/// repeated, and the repeated lookup reads nothing from the ledger: it is
/// answered from the row that the cache then holds, whatever has become of
/// the ledger in the meantime.
pub proof fn metadata_is_fetched_once(world: World, mint: Seq<char>, later: World)
    requires
        get_metadata(world, mint).result is Ok,
        later.metadata_rows == get_metadata(world, mint).world.metadata_rows,
    ensures
        get_metadata(later, mint).result == get_metadata(world, mint).result,
        get_metadata(later, mint).reads == 0,
        get_metadata(later, mint).world == later,
{
    reveal_with_fuel(metadata_run, 5);
}

/// A cached record is returned whatever its age and whatever the ledger
/// holds, without a read from the ledger and without a write to the cache.
pub proof fn cached_metadata_is_returned(world: World, mint: Seq<char>)
    requires
        world.metadata_rows.dom().contains(mint),
    ensures
        get_metadata(world, mint).result == Ok::<_, TokenError>(world.metadata_rows[mint]),
        get_metadata(world, mint).reads == 0,
        get_metadata(world, mint).world == world,
{
    reveal_with_fuel(metadata_run, 2);
}

/// A mint that the cache has no row for and whose account the ledger does
/// not hold is not found, and no row is written.
pub proof fn unknown_mint_is_not_found(world: World, mint: Seq<char>)
    requires
        !world.metadata_rows.dom().contains(mint),
        decoded_address(mint) matches Some(address) && !world.accounts.dom().contains(address),
    ensures
        get_metadata(world, mint).result == Err::<TokenMetadataView, _>(TokenError::NotFound),
        get_metadata(world, mint).world == world,
{
    reveal_with_fuel(metadata_run, 5);
}

/// A mint that the cache has no row for is described by its two accounts:
/// the supply and the decimals are those of its mint account, the name and
/// the symbol those of its metadata account without their padding. The
/// lookup reads these two accounts and writes the record to the cache.
pub proof fn fetched_metadata_describes_the_accounts(
    world: World,
    mint: Seq<char>,
    mint_address: Seq<u8>,
    metadata_address: Seq<u8>,
    name: Seq<char>,
    symbol: Seq<char>,
)
    requires
        !world.metadata_rows.dom().contains(mint),
        decoded_address(mint) == Some(mint_address),
        world.accounts.dom().contains(mint_address),
        is_initialized_mint(world.accounts[mint_address]),
        metadata_address_of(mint_address) == Some(metadata_address),
        world.accounts.dom().contains(metadata_address),
        metadata_text(world.accounts[metadata_address]) == Some((name, symbol)),
    ensures
        get_metadata(world, mint).result == Ok::<_, TokenError>(
            described(mint, mint_state(world.accounts[mint_address]), name, symbol),
        ),
        get_metadata(world, mint).reads == 2,
        get_metadata(world, mint).world.metadata_rows[mint] == described(
            mint,
            mint_state(world.accounts[mint_address]),
            name,
            symbol,
        ),
{
    reveal_with_fuel(metadata_run, 5);
}

/// A metadata lookup that fails writes nothing, and one that succeeds leaves
/// the record it returns in the row of the mint and every other row as it
/// was.
pub proof fn metadata_lookup_writes_what_it_returns(world: World, mint: Seq<char>)
    ensures
        get_metadata(world, mint).result is Err ==> get_metadata(world, mint).world == world,
        get_metadata(world, mint).result matches Ok(metadata) ==> {
            &&& get_metadata(world, mint).world.metadata_rows == world.metadata_rows.insert(
                mint,
                metadata,
            )
            &&& get_metadata(world, mint).world == World {
                metadata_rows: get_metadata(world, mint).world.metadata_rows,
                ..world
            }
        },
{
    reveal_with_fuel(metadata_run, 5);
    let run = get_metadata(world, mint);
    if run.result is Ok {
        assert(run.world.metadata_rows =~= world.metadata_rows.insert(mint, run.result->Ok_0));
    }
}

/// A cached price whose age is at most the window is returned as it was
/// written, without a request to the quote service and without a write.
pub proof fn fresh_price_is_reused(world: World, mint: Seq<char>, window: u64)
    requires
        world.price_rows.dom().contains(mint),
        is_fresh(world.price_rows[mint].last_updated as int, world.now as int, window as int),
    ensures
        get_price(world, mint, window).result == Ok::<_, TokenError>(
            world.price_rows[mint].price_bits,
        ),
        get_price(world, mint, window).requests == 0,
        get_price(world, mint, window).world == world,
{
    reveal_with_fuel(price_run, 2);
}

/// A cached price whose age is over the window is not used: the lookup sends
/// one request to the quote service. So does a lookup that finds no row.
pub proof fn stale_price_is_fetched_again(world: World, mint: Seq<char>, window: u64)
    requires
        world.price_rows.dom().contains(mint) ==> !is_fresh(
            world.price_rows[mint].last_updated as int,
            world.now as int,
            window as int,
        ),
    ensures
        get_price(world, mint, window).requests == 1,
{
    reveal_with_fuel(price_run, 5);
}

/// A price that is written and then looked up at a later time is returned
/// exactly, without a request, while at most `window` seconds have passed;
/// after that the lookup goes to the quote service again.
pub proof fn written_price_is_read_back(
    world: World,
    mint: Seq<char>,
    price_bits: u64,
    window: u64,
    later_now: i64,
)
    ensures
        ({
            let written = price_effect(world, PriceActionView::Save { mint, price_bits });
            let later = World { now: later_now, ..written };
            &&& later_now - world.now <= window ==> {
                &&& get_price(later, mint, window).result == Ok::<_, TokenError>(price_bits)
                &&& get_price(later, mint, window).requests == 0
            }
            &&& later_now - world.now > window ==> get_price(later, mint, window).requests == 1
        }),
{
    reveal_with_fuel(price_run, 5);
}

/// Where the cache has no valid row, the price is the number that the quote
/// service's text for the mint denotes. The lookup sends one request and
/// writes the price to the cache with the time of the lookup.
pub proof fn fetched_price_is_what_the_quote_says(
    world: World,
    mint: Seq<char>,
    window: u64,
    texts: Map<Seq<Seq<char>>, Seq<char>>,
)
    requires
        world.price_rows.dom().contains(mint) ==> !is_fresh(
            world.price_rows[mint].last_updated as int,
            world.now as int,
            window as int,
        ),
        world.quotes.dom().contains(quote_url(mint)),
        document_texts(world.quotes[quote_url(mint)]) == Some(texts),
        world.numbers.dom().contains(quoted_text(texts, mint)),
    ensures
        get_price(world, mint, window).result == Ok::<_, TokenError>(
            world.numbers[quoted_text(texts, mint)],
        ),
        get_price(world, mint, window).requests == 1,
        get_price(world, mint, window).world.price_rows[mint] == (PriceRow {
            price_bits: world.numbers[quoted_text(texts, mint)],
            last_updated: world.now,
        }),
{
    reveal_with_fuel(price_run, 5);
}

/// A price lookup that fails writes nothing. One that succeeds leaves a row
/// for the mint that holds the price it returns and is valid at the time of
/// the lookup, and leaves every other row as it was.
pub proof fn price_lookup_caches_what_it_returns(world: World, mint: Seq<char>, window: u64)
    ensures
        get_price(world, mint, window).result is Err ==> get_price(world, mint, window).world
            == world,
        get_price(world, mint, window).result matches Ok(price_bits) ==> {
            let after = get_price(world, mint, window).world;
            &&& after.price_rows.dom() == world.price_rows.dom().insert(mint)
            &&& after.price_rows[mint].price_bits == price_bits
            &&& is_fresh(after.price_rows[mint].last_updated as int, world.now as int, window as int)
            &&& forall|other: Seq<char>|
                other != mint && world.price_rows.dom().contains(other)
                    ==> after.price_rows[other] == #[trigger] world.price_rows[other]
            &&& after == World { price_rows: after.price_rows, ..world }
        },
{
    reveal_with_fuel(price_run, 5);
    let run = get_price(world, mint, window);
    if run.result is Ok {
        assert(run.world.price_rows.dom() =~= world.price_rows.dom().insert(mint));
    }
}

/// Writing the same price twice leaves what writing it once leaves: one row
/// for the mint, which holds that price.
pub proof fn price_write_is_idempotent(world: World, mint: Seq<char>, price_bits: u64)
    ensures
        ({
            let save = PriceActionView::Save { mint, price_bits };
            let once = price_effect(world, save);
            let twice = price_effect(once, save);
            &&& twice == once
            &&& twice.price_rows.dom().contains(mint)
            &&& twice.price_rows[mint] == PriceRow { price_bits, last_updated: world.now }
            &&& twice.price_rows.dom().filter(|key: Seq<char>| key == mint).len() == 1
        }),
{
    let save = PriceActionView::Save { mint, price_bits };
    let once = price_effect(world, save);
    let twice = price_effect(once, save);
    assert(twice.price_rows =~= once.price_rows);
    assert(twice.price_rows.dom().filter(|key: Seq<char>| key == mint) =~= set![mint]);
}

/// Of two writes for one mint the later one stays: the row holds its price
/// and its time, no row is added by it, and the rows of other mints are as
/// the first write left them.
pub proof fn last_price_write_wins(
    world: World,
    mint: Seq<char>,
    first_bits: u64,
    second_bits: u64,
    later_now: i64,
)
    ensures
        ({
            let first = price_effect(world, PriceActionView::Save { mint, price_bits: first_bits });
            let second = price_effect(
                World { now: later_now, ..first },
                PriceActionView::Save { mint, price_bits: second_bits },
            );
            &&& second.price_rows[mint] == PriceRow {
                price_bits: second_bits,
                last_updated: later_now,
            }
            &&& second.price_rows.dom() == first.price_rows.dom()
            &&& forall|other: Seq<char>|
                other != mint ==> second.price_rows[other] == #[trigger] first.price_rows[other]
        }),
{
    let first = price_effect(world, PriceActionView::Save { mint, price_bits: first_bits });
    let second = price_effect(
        World { now: later_now, ..first },
        PriceActionView::Save { mint, price_bits: second_bits },
    );
    assert(second.price_rows.dom() =~= first.price_rows.dom());
}

/// An answer of the quote service that is JSON and has no price for the mint
/// does not fail the fetch: the text that is read as the price is `0.0`.
pub proof fn missing_price_reads_as_zero(mint: Seq<char>, body: Seq<u8>)
    requires
        document_texts(body) matches Some(texts) && !texts.dom().contains(price_path(mint)),
    ensures
        quote_step(QuoteStateView::Body { mint }, QuoteReplyView::Body(body))
            == (QuoteStepView::Parse { text: "0.0"@, state: QuoteStateView::Number }),
{
}

/// Where the cache has no valid row and the quote service answers without a
/// price for the mint, the lookup returns the number that `0.0` denotes and
/// writes it to the cache.
pub proof fn missing_price_is_cached_as_zero(
    world: World,
    mint: Seq<char>,
    window: u64,
    zero_bits: u64,
)
    requires
        world.price_rows.dom().contains(mint) ==> !is_fresh(
            world.price_rows[mint].last_updated as int,
            world.now as int,
            window as int,
        ),
        world.quotes.dom().contains(quote_url(mint)),
        document_texts(world.quotes[quote_url(mint)]) matches Some(texts) && !texts.dom().contains(
            price_path(mint),
        ),
        world.numbers.dom().contains("0.0"@),
        world.numbers["0.0"@] == zero_bits,
    ensures
        get_price(world, mint, window).result == Ok::<_, TokenError>(zero_bits),
        get_price(world, mint, window).world.price_rows[mint] == (PriceRow {
            price_bits: zero_bits,
            last_updated: world.now,
        }),
{
    reveal_with_fuel(price_run, 5);
}

} // verus!
