//! The market-data listing: building the request URL and reading the
//! response payload into entity records.

use vstd::prelude::*;
use vstd::string::StrSliceExecFns;
use vstd::string::StringExecFns;
use crate::value::{Value, spec_get};
use crate::coins::Coin;
use crate::numeral::{nat_text, usize_string, spec_parse_i64, parse_i64};

verus! {

/// What `urlencoding::encode` returns for the given characters.
pub uninterp spec fn url_encoded(s: Seq<char>) -> Seq<char>;

/// Relies on `urlencoding::encode`: percent-encodes every byte except
/// ASCII alphanumerics and `-`, `_`, `.`, `~`; the result is a function
/// of the input characters alone.
#[verifier::external_body]
fn url_encode(s: &str) -> (r: String)
    ensures
        r@ == url_encoded(s@),
{
    urlencoding::encode(s).into_owned()
}

/// The listing request URL for a top list of `top_n` entries quoted in
/// the (percent-encoded) currency `convert`.
pub fn listing_url(top_n: usize, convert: &str) -> (r: String)
    ensures
        r@ == "https://pro-api.coinmarketcap.com/v1/cryptocurrency/listings/latest?start=1&limit="@
            + nat_text(top_n as int) + "&convert="@ + url_encoded(convert@)
            + "&sort=market_cap&sort_dir=desc"@,
{
    let mut r = String::from_str(
        "https://pro-api.coinmarketcap.com/v1/cryptocurrency/listings/latest?start=1&limit=",
    );
    r.append(usize_string(top_n).as_str());
    r.append("&convert=");
    r.append(url_encode(convert).as_str());
    r.append("&sort=market_cap&sort_dir=desc");
    proof {
        assert(r@ =~= "https://pro-api.coinmarketcap.com/v1/cryptocurrency/listings/latest?start=1&limit="@
            + nat_text(top_n as int) + "&convert="@ + url_encoded(convert@)
            + "&sort=market_cap&sort_dir=desc"@);
    }
    r
}

/// The identifier value of a member: the number's text parsed as `i64`,
/// zero when absent, non-numeric, or out of range.
pub open spec fn spec_i64_or_zero(o: Option<Value>) -> int {
    match o {
        Some(Value::Num(s)) => match spec_parse_i64(s@) {
            Some(n) => n,
            None => 0,
        },
        _ => 0,
    }
}

/// The string value of a member, or the given fallback.
pub open spec fn spec_text_or(o: Option<Value>, d: Seq<char>) -> Seq<char> {
    match o {
        Some(Value::Text(s)) => s@,
        _ => d,
    }
}

/// The magnitude text under `quote -> convert -> market_cap`, when that
/// path ends at a number.
pub open spec fn spec_quote_mc(item: Value, convert: Seq<char>) -> Option<Seq<char>> {
    match spec_get(item, "quote"@) {
        Some(q) => match spec_get(q, convert) {
            Some(qq) => match spec_get(qq, "market_cap"@) {
                Some(Value::Num(s)) => Some(s@),
                _ => None,
            },
            None => None,
        },
        None => None,
    }
}

/// The record read from one listing item, with the fallbacks the
/// listing reader applies.
pub open spec fn spec_coin_from_item(c: Coin, item: Value, convert: Seq<char>) -> bool {
    &&& c.id == spec_i64_or_zero(spec_get(item, "id"@))
    &&& c.name@ == spec_text_or(spec_get(item, "name"@), "Unknown"@)
    &&& c.symbol@ == spec_text_or(spec_get(item, "symbol"@), "???"@)
    &&& c.rank == spec_i64_or_zero(spec_get(item, "cmc_rank"@))
    &&& (match spec_quote_mc(item, convert) {
        Some(mc) => c.market_cap is Some && c.market_cap->0@ == mc,
        None => c.market_cap is None,
    })
    &&& c.market_cap_currency@ == convert
}

/// The payload carries a `data` sequence.
pub open spec fn spec_has_data_arr(v: Value) -> bool {
    match spec_get(v, "data"@) {
        Some(Value::Arr(_)) => true,
        _ => false,
    }
}

fn i64_member_or_zero(item: &Value, key: &str) -> (r: i64)
    ensures
        r as int == spec_i64_or_zero(spec_get(*item, key@)),
{
    match item.get_member(key) {
        Some(Value::Num(s)) => match parse_i64(s.as_str()) {
            Some(n) => n,
            None => 0,
        },
        _ => 0,
    }
}

fn text_member_or(item: &Value, key: &str, fallback: &str) -> (r: String)
    ensures
        r@ == spec_text_or(spec_get(*item, key@), fallback@),
{
    match item.get_member(key) {
        Some(Value::Text(s)) => s.clone(),
        _ => String::from_str(fallback),
    }
}

/// Reads the entity records out of a listing payload: nothing unless a
/// `data` sequence is present, else one record per item with missing
/// fields replaced by their fallbacks.
pub fn coins_from_listing(payload: &Value, convert: &str) -> (r: Option<Vec<Coin>>)
    ensures
        match r {
            None => !spec_has_data_arr(*payload),
            Some(coins) => match spec_get(*payload, "data"@) {
                Some(Value::Arr(items)) => coins@.len() == items@.len() && (forall|k: int|
                    0 <= k < items@.len() ==> spec_coin_from_item(
                        #[trigger] coins@[k],
                        items@[k],
                        convert@,
                    )),
                _ => false,
            },
        },
{
    let data = match payload.get_member("data") {
        Some(d) => d,
        None => {
            return None;
        },
    };
    let items = match data {
        Value::Arr(items) => items,
        _ => {
            return None;
        },
    };
    let mut coins: Vec<Coin> = Vec::new();
    let mut i: usize = 0;
    while i < items.len()
        invariant
            0 <= i <= items@.len(),
            coins@.len() == i,
            forall|k: int|
                0 <= k < i ==> spec_coin_from_item(#[trigger] coins@[k], items@[k], convert@),
        decreases items@.len() - i,
    {
        let item = &items[i];
        let id = i64_member_or_zero(item, "id");
        let name = text_member_or(item, "name", "Unknown");
        let symbol = text_member_or(item, "symbol", "???");
        let rank = i64_member_or_zero(item, "cmc_rank");
        let market_cap: Option<String> = match item.get_member("quote") {
            Some(q) => match q.get_member(convert) {
                Some(qq) => match qq.get_member("market_cap") {
                    Some(Value::Num(s)) => Some(s.clone()),
                    _ => None,
                },
                _ => None,
            },
            _ => None,
        };
        let market_cap_currency = crate::text::chars_to_string(&crate::text::to_chars(convert));
        coins.push(Coin { id, name, symbol, rank, market_cap, market_cap_currency });
        i = i + 1;
    }
    Some(coins)
}

} // verus!
