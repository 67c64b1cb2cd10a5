use token_service::quote::{
    begin_quote, price_text, price_text_of, price_url, QuoteReply, QuoteState, QuoteStep,
};
use token_service::{TokenError, TokenService};

const MINT: &str = "61V8vBaqAGMpgDQi4JcAwo1dmBGHsyhzodcPqnEVpump";

fn body_with_price(price: &str) -> Vec<u8> {
    format!("{{\"data\":{{\"{}\":{{\"id\":\"{}\",\"type\":\"derivedPrice\",\"price\":{}}}}},\"timeTaken\":0.003}}", MINT, MINT, price)
        .into_bytes()
}

#[test]
fn price_url_names_the_mint() {
    assert_eq!(
        price_url(MINT),
        "https://api.jup.ag/price/v2?ids=61V8vBaqAGMpgDQi4JcAwo1dmBGHsyhzodcPqnEVpump"
    );
    assert_eq!(price_url(""), "https://api.jup.ag/price/v2?ids=");
}

#[test]
fn price_text_reads_the_nested_string() {
    assert_eq!(price_text(&body_with_price("\"0.00123\""), MINT).unwrap(), "0.00123");
    assert_eq!(price_text(&body_with_price("\"abc\""), MINT).unwrap(), "abc");
    assert_eq!(price_text(&body_with_price("\"\""), MINT).unwrap(), "");
}

#[test]
fn price_text_defaults_to_zero() {
    assert_eq!(price_text(b"{}", MINT).unwrap(), "0.0");
    assert_eq!(price_text(b"null", MINT).unwrap(), "0.0");
    assert_eq!(price_text(b"[1, 2]", MINT).unwrap(), "0.0");
    assert_eq!(price_text(b"{\"data\":null}", MINT).unwrap(), "0.0");
    assert_eq!(price_text(b"{\"data\":{}}", MINT).unwrap(), "0.0");
    assert_eq!(price_text(b"{\"data\":{\"other\":{\"price\":\"2\"}}}", MINT).unwrap(), "0.0");
    let no_price = format!("{{\"data\":{{\"{}\":{{\"id\":\"x\"}}}}}}", MINT);
    assert_eq!(price_text(no_price.as_bytes(), MINT).unwrap(), "0.0");
    assert_eq!(price_text(&body_with_price("1.5"), MINT).unwrap(), "0.0");
    assert_eq!(price_text(&body_with_price("null"), MINT).unwrap(), "0.0");
    assert_eq!(price_text(&body_with_price("{\"price\":\"3\"}"), MINT).unwrap(), "0.0");
    let null_entry = format!("{{\"data\":{{\"{}\":null}}}}", MINT);
    assert_eq!(price_text(null_entry.as_bytes(), MINT).unwrap(), "0.0");
}

#[test]
fn missing_price_field_parses_to_zero() {
    let no_price = format!("{{\"data\":{{\"{}\":{{}}}}}}", MINT);
    let text = price_text(no_price.as_bytes(), MINT).unwrap();
    let price: f64 = text.parse().unwrap();
    assert_eq!(price, 0.0);
}

#[test]
fn price_text_rejects_what_is_not_json() {
    assert_eq!(price_text(b"", MINT).unwrap_err(), TokenError::ParseError);
    assert_eq!(price_text(b"<html>", MINT).unwrap_err(), TokenError::ParseError);
    assert_eq!(price_text(b"{\"data\":", MINT).unwrap_err(), TokenError::ParseError);
    assert_eq!(price_text(b"{} {}", MINT).unwrap_err(), TokenError::ParseError);
    assert_eq!(price_text(&[0xff, 0xfe], MINT).unwrap_err(), TokenError::ParseError);
}

#[test]
fn price_text_of_reads_a_parsed_answer() {
    let document: serde_json::Value =
        serde_json::from_slice(&body_with_price("\"7.25\"")).unwrap();
    assert_eq!(price_text_of(&document, MINT), "7.25");
    assert_eq!(price_text_of(&document, "another"), "0.0");
    assert_eq!(price_text_of(&serde_json::Value::Null, MINT), "0.0");
    assert_eq!(price_text_of(&serde_json::Value::String("9".to_string()), MINT), "0.0");
}

#[test]
fn price_text_takes_the_mint_as_a_key() {
    let body = b"{\"data\":{\"a\":{\"price\":\"1\"},\"b\":{\"price\":\"2\"},\"price\":{\"price\":\"3\"}}}";
    assert_eq!(price_text(body, "a").unwrap(), "1");
    assert_eq!(price_text(body, "b").unwrap(), "2");
    assert_eq!(price_text(body, "price").unwrap(), "3");
    assert_eq!(price_text(body, "data").unwrap(), "0.0");
}

#[test]
fn quote_runs_from_request_to_number() {
    let state = match begin_quote(MINT) {
        QuoteStep::Get { url, state } => {
            assert_eq!(url, price_url(MINT));
            state
        }
        other => panic!("{:?}", other),
    };
    let state = match state.step(QuoteReply::Body(body_with_price("\"1.5\""))) {
        QuoteStep::Parse { text, state } => {
            assert_eq!(text, "1.5");
            state
        }
        other => panic!("{:?}", other),
    };
    match state.step(QuoteReply::Number(1.5f64.to_bits())) {
        QuoteStep::Finish(Ok(bits)) => assert_eq!(f64::from_bits(bits), 1.5),
        other => panic!("{:?}", other),
    }
}

#[test]
fn quote_fails_as_its_replies_fail() {
    let awaiting_body = || QuoteState::Body { mint: MINT.to_string() };
    let error_of = |step: QuoteStep| match step {
        QuoteStep::Finish(Err(error)) => error,
        other => panic!("{:?}", other),
    };
    assert_eq!(error_of(awaiting_body().step(QuoteReply::Failed)), TokenError::NetworkError);
    assert_eq!(error_of(awaiting_body().step(QuoteReply::Number(1))), TokenError::NetworkError);
    assert_eq!(
        error_of(awaiting_body().step(QuoteReply::Body(b"oops".to_vec()))),
        TokenError::ParseError
    );
    assert_eq!(error_of(QuoteState::Number.step(QuoteReply::Failed)), TokenError::ParseError);
    assert_eq!(
        error_of(QuoteState::Number.step(QuoteReply::Body(b"{}".to_vec()))),
        TokenError::ParseError
    );
}

#[test]
fn fetch_mint_price_goes_past_the_cache() {
    match TokenService::new().fetch_mint_price(MINT) {
        QuoteStep::Get { url, state: QuoteState::Body { mint } } => {
            assert_eq!(url, price_url(MINT));
            assert_eq!(mint, MINT);
        }
        other => panic!("{:?}", other),
    }
}
