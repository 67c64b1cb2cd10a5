//! The quote service: where a price is asked for, and how its answer is read.

use serde_json::Value;
use vstd::prelude::*;
use vstd::string::StringExecFns;

use crate::types::TokenError;

verus! {

/// A JSON value of `serde_json`. What it holds is known only through
/// `json_texts`.
#[verifier::external_type_specification]
#[verifier::external_body]
pub struct ExValue(Value);

/// The error of `serde_json::from_slice`, carried through unread.
#[verifier::external_type_specification]
#[verifier::external_body]
pub struct ExJsonError(serde_json::Error);

/// A path into a JSON value: the keys of the objects to go through, outermost
/// first.
pub type Path = Seq<Seq<char>>;

/// The texts that a JSON value holds: each path that leads through objects to
/// a string, with that string. A string itself holds its text at the empty
/// path; a path that ends anywhere else is not in the map.
pub uninterp spec fn json_texts(value: Value) -> Map<Path, Seq<char>>;

/// The texts of the JSON value that `serde_json::from_slice` reads from a
/// body, or `None` where it rejects the body.
pub uninterp spec fn document_texts(body: Seq<u8>) -> Option<Map<Path, Seq<char>>>;

/// The texts below the key `key`: what is left of the paths that begin with
/// it.
pub open spec fn texts_under(texts: Map<Path, Seq<char>>, key: Seq<char>) -> Map<Path, Seq<char>> {
    Map::new(
        |path: Path| texts.dom().contains(seq![key] + path),
        |path: Path| texts[seq![key] + path],
    )
}

/// Calls `serde_json::from_slice` for a `Value`. Trusted: the outcome is
/// `document_texts` of the body.
#[verifier::external_body]
fn json_from_slice(body: &[u8]) -> (parsed: Result<Value, serde_json::Error>)
    ensures
        match parsed {
            Ok(value) => document_texts(body@) == Some(json_texts(value)),
            Err(_) => document_texts(body@) is None,
        },
{
    serde_json::from_slice(body)
}

/// Indexes a `Value` by a key, as `value[key]` does. Trusted: the result is
/// the member of that name where `value` is an object that has one, and null
/// otherwise; so it holds the texts that `value` holds below the key.
#[verifier::external_body]
fn json_index<'a>(value: &'a Value, key: &str) -> (member: &'a Value)
    ensures
        json_texts(*member) == texts_under(json_texts(*value), key@),
{
    &value[key]
}

/// Calls `Value::as_str`. Trusted: it returns the text of a string and `None`
/// for every other value.
#[verifier::external_body]
fn json_as_str<'a>(value: &'a Value) -> (text: Option<&'a str>)
    ensures
        match text {
            Some(found) => json_texts(*value).dom().contains(Seq::empty()) && json_texts(
                *value,
            )[Seq::empty()] == found@,
            None => !json_texts(*value).dom().contains(Seq::empty()),
        },
{
    value.as_str()
}

/// The address at which the quote service is asked for the price of `mint`.
pub open spec fn quote_url(mint: Seq<char>) -> Seq<char> {
    "https://api.jup.ag/price/v2?ids="@ + mint
}

/// Where the answer of the quote service holds the price of `mint`.
pub open spec fn price_path(mint: Seq<char>) -> Path {
    seq!["data"@, mint, "price"@]
}

/// The text of the price of `mint` in an answer that holds `texts`: the
/// string at the price path, and `0.0` where there is none.
pub open spec fn quoted_text(texts: Map<Path, Seq<char>>, mint: Seq<char>) -> Seq<char> {
    if texts.dom().contains(price_path(mint)) {
        texts[price_path(mint)]
    } else {
        "0.0"@
    }
}

/// Builds the address at which the quote service is asked for the price of
/// `mint`.
pub fn price_url(mint: &str) -> (url: String)
    ensures
        url@ == quote_url(mint@),
{
    let mut url = "https://api.jup.ag/price/v2?ids=".to_owned();
    url.append(mint);
    url
}

/// Reads the text of the price of `mint` out of a parsed answer.
pub fn price_text_of(document: &Value, mint: &str) -> (text: String)
    ensures
        text@ == quoted_text(json_texts(*document), mint@),
{
    let data = json_index(document, "data");
    let entry = json_index(data, mint);
    let price = json_index(entry, "price");
    proof {
        let path = price_path(mint@);
        let empty = Seq::<Seq<char>>::empty();
        assert(seq!["price"@] + empty =~= seq!["price"@]);
        assert(seq![mint@] + seq!["price"@] =~= seq![mint@, "price"@]);
        assert(seq!["data"@] + seq![mint@, "price"@] =~= path);
    }
    match json_as_str(price) {
        Some(found) => found.to_owned(),
        None => "0.0".to_owned(),
    }
}

/// Reads the text of the price of `mint` out of the body of an answer.
///
/// Fails with `ParseError` exactly where the body is not JSON.
pub fn price_text(body: &[u8], mint: &str) -> (read: Result<String, TokenError>)
    ensures
        match read {
            Ok(text) => document_texts(body@) matches Some(texts) && text@ == quoted_text(
                texts,
                mint@,
            ),
            Err(error) => error == TokenError::ParseError && document_texts(body@) is None,
        },
{
    match json_from_slice(body) {
        Ok(document) => Ok(price_text_of(&document, mint)),
        Err(_) => Err(TokenError::ParseError),
    }
}

/// What came back from outside while a price was being fetched.
#[derive(Debug)]
pub enum QuoteReply {
    /// The body of the quote service's answer.
    Body(Vec<u8>),
    /// The number that the price text denotes, as its bit pattern.
    Number(u64),
    /// The request failed, or the text denotes no number.
    Failed,
}

/// The mathematical value of a [`QuoteReply`].
pub enum QuoteReplyView {
    Body(Seq<u8>),
    Number(u64),
    Failed,
}

impl View for QuoteReply {
    type V = QuoteReplyView;

    open spec fn view(&self) -> QuoteReplyView {
        match self {
            QuoteReply::Body(body) => QuoteReplyView::Body(body@),
            QuoteReply::Number(bits) => QuoteReplyView::Number(*bits),
            QuoteReply::Failed => QuoteReplyView::Failed,
        }
    }
}

/// Where the fetch of a price stands while it waits.
#[derive(Debug)]
pub enum QuoteState {
    /// The quote service is being asked for the price of `mint`.
    Body { mint: String },
    /// The price text is being read as a number.
    Number,
}

/// The mathematical value of a [`QuoteState`].
pub enum QuoteStateView {
    Body { mint: Seq<char> },
    Number,
}

impl View for QuoteState {
    type V = QuoteStateView;

    open spec fn view(&self) -> QuoteStateView {
        match self {
            QuoteState::Body { mint } => QuoteStateView::Body { mint: mint@ },
            QuoteState::Number => QuoteStateView::Number,
        }
    }
}

/// What the fetch of a price asks for next, or how it ended.
#[derive(Debug)]
pub enum QuoteStep {
    /// Send a GET request to `url`, then go on from `state` with the body.
    Get { url: String, state: QuoteState },
    /// Read `text` as a number, then go on from `state` with its bits.
    Parse { text: String, state: QuoteState },
    /// The fetch is over; a price comes as its bit pattern.
    Finish(Result<u64, TokenError>),
}

/// The mathematical value of a [`QuoteStep`].
pub enum QuoteStepView {
    Get { url: Seq<char>, state: QuoteStateView },
    Parse { text: Seq<char>, state: QuoteStateView },
    Finish(Result<u64, TokenError>),
}

impl View for QuoteStep {
    type V = QuoteStepView;

    open spec fn view(&self) -> QuoteStepView {
        match self {
            QuoteStep::Get { url, state } => QuoteStepView::Get { url: url@, state: state@ },
            QuoteStep::Parse { text, state } => QuoteStepView::Parse { text: text@, state: state@ },
            QuoteStep::Finish(result) => QuoteStepView::Finish(*result),
        }
    }
}

/// How the fetch of the price of `mint` begins: with a request to the quote
/// service.
pub open spec fn quote_begin(mint: Seq<char>) -> QuoteStepView {
    QuoteStepView::Get { url: quote_url(mint), state: QuoteStateView::Body { mint } }
}

/// How the fetch of a price goes on from `state` when `reply` comes back.
///
/// While the body is awaited, a body that is JSON leads to reading its price
/// text as a number, a body that is not ends the fetch with `ParseError`, and
/// anything else with `NetworkError`. While the number is awaited, a number
/// ends the fetch with that price, and anything else with `ParseError`.
pub open spec fn quote_step(state: QuoteStateView, reply: QuoteReplyView) -> QuoteStepView {
    match state {
        QuoteStateView::Body { mint } => match reply {
            QuoteReplyView::Body(body) => match document_texts(body) {
                Some(texts) => QuoteStepView::Parse {
                    text: quoted_text(texts, mint),
                    state: QuoteStateView::Number,
                },
                None => QuoteStepView::Finish(Err(TokenError::ParseError)),
            },
            _ => QuoteStepView::Finish(Err(TokenError::NetworkError)),
        },
        QuoteStateView::Number => match reply {
            QuoteReplyView::Number(bits) => QuoteStepView::Finish(Ok(bits)),
            _ => QuoteStepView::Finish(Err(TokenError::ParseError)),
        },
    }
}

/// Begins to fetch the price of `mint` from the quote service.
pub fn begin_quote(mint: &str) -> (step: QuoteStep)
    ensures
        step@ == quote_begin(mint@),
{
    QuoteStep::Get { url: price_url(mint), state: QuoteState::Body { mint: mint.to_owned() } }
}

impl QuoteState {
    /// Goes on with what came back for the last request.
    pub fn step(self, reply: QuoteReply) -> (step: QuoteStep)
        ensures
            step@ == quote_step(self@, reply@),
    {
        match self {
            QuoteState::Body { mint } => match reply {
                QuoteReply::Body(body) => match price_text(body.as_slice(), mint.as_str()) {
                    Ok(text) => QuoteStep::Parse { text, state: QuoteState::Number },
                    Err(error) => QuoteStep::Finish(Err(error)),
                },
                _ => QuoteStep::Finish(Err(TokenError::NetworkError)),
            },
            QuoteState::Number => match reply {
                QuoteReply::Number(bits) => QuoteStep::Finish(Ok(bits)),
                _ => QuoteStep::Finish(Err(TokenError::ParseError)),
            },
        }
    }
}

} // verus!
