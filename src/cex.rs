//! Reference prices from centralized venues: symbols, and the decisions
//! taken on what a venue answered. The HTTP exchange itself happens outside.

use vstd::prelude::*;
use vstd::string::StringExecFns;
use crate::decimal::{parse_decimal, parsed_decimal};
use crate::error::ArgusError;
use crate::models::CexPrice;

verus! {

/// What `str::to_uppercase` gives for `s`.
pub uninterp spec fn uppercase_of(s: Seq<char>) -> Seq<char>;

/// Relies on `str::to_uppercase`: the uppercase form of each character.
#[verifier::external_body]
fn to_uppercase(s: &str) -> (r: String)
    ensures
        r@ == uppercase_of(s@),
{
    s.to_uppercase()
}

/// Ticker symbol of a pair on venues that join the two assets: `ETHUSDC`.
pub fn format_symbol(base: &str, quote: &str) -> (r: String)
    ensures
        r@ == uppercase_of(base@) + uppercase_of(quote@),
{
    let b = to_uppercase(base);
    let q = to_uppercase(quote);
    b.concat(q.as_str())
}

/// Pair name for the Kraken ticker endpoint, the assets joined in upper case.
pub fn format_pair(base: &str, quote: &str) -> (r: String)
    ensures
        r@ == uppercase_of(base@) + uppercase_of(quote@),
{
    format_symbol(base, quote)
}

/// Human label of a pair: `ETH/USDC`.
pub fn pair_label(base: &str, quote: &str) -> (r: String)
    ensures
        r@ == uppercase_of(base@) + "/"@ + uppercase_of(quote@),
{
    let b = to_uppercase(base);
    let q = to_uppercase(quote);
    b.concat("/").concat(q.as_str())
}

/// A venue's price answer turned into a reference price: missing text or text
/// that is not a decimal is a `CexApiError`.
pub fn cex_price(exchange: &str, base: &str, quote: &str, price_text: Option<String>, timestamp_ms: i64) -> (r: Result<CexPrice, ArgusError>)
    ensures
        price_text is None ==> r is Err && r->Err_0 is CexApiError,
        price_text is Some && parsed_decimal(price_text->0@) is None ==> r is Err && r->Err_0 is CexApiError,
        price_text is Some && parsed_decimal(price_text->0@) is Some ==> r is Ok && ({
            let p = r->Ok_0;
            &&& p.exchange@ == exchange@
            &&& p.pair@ == uppercase_of(base@) + "/"@ + uppercase_of(quote@)
            &&& p.price == parsed_decimal(price_text->0@)->0
            &&& p.timestamp_ms == timestamp_ms
        }),
{
    let text = match price_text {
        Some(t) => t,
        None => return Err(ArgusError::CexApiError(String::from_str("No price in ").concat(exchange).concat(" response"))),
    };
    let price = match parse_decimal(text.as_str()) {
        Some(p) => p,
        None => return Err(ArgusError::CexApiError(String::from_str("Failed to parse price: ").concat(text.as_str()))),
    };
    Ok(CexPrice { exchange: String::from_str(exchange), pair: pair_label(base, quote), price, timestamp_ms })
}

/// The last-trade price text of the first ticker in a Kraken answer: the
/// answer's error list must be empty, and a ticker with a price must exist.
pub fn kraken_price_text(errors: &Vec<String>, tickers: &Option<Vec<Vec<String>>>) -> (r: Result<String, ArgusError>)
    ensures
        errors@.len() > 0 ==> r is Err && r->Err_0 is CexApiError,
        errors@.len() == 0 && tickers is None ==> r is Err && r->Err_0 is CexApiError,
        errors@.len() == 0 && tickers is Some && tickers->0@.len() == 0 ==> r is Err && r->Err_0 is CexApiError,
        errors@.len() == 0 && tickers is Some && tickers->0@.len() > 0 && tickers->0@[0]@.len() == 0
            ==> r is Err && r->Err_0 is CexApiError,
        errors@.len() == 0 && tickers is Some && tickers->0@.len() > 0 && tickers->0@[0]@.len() > 0
            ==> r is Ok && r->Ok_0@ == tickers->0@[0]@[0]@,
{
    if errors.len() > 0 {
        return Err(ArgusError::CexApiError(String::from_str("Kraken API error: ").concat(errors[0].as_str())));
    }
    let tickers = match tickers {
        Some(t) => t,
        None => return Err(ArgusError::CexApiError(String::from_str("No result in Kraken response"))),
    };
    if tickers.len() == 0 {
        return Err(ArgusError::CexApiError(String::from_str("No ticker data found")));
    }
    let closes = &tickers[0];
    if closes.len() == 0 {
        return Err(ArgusError::CexApiError(String::from_str("No price data found")));
    }
    Ok(closes[0].clone())
}

} // verus!
