//! Construction of the rendering context: the value tree handed to the
//! renderer, assembled from configuration, options, the diffed entity
//! records, and the recent-post history.

use vstd::prelude::*;
use vstd::string::StringExecFns;
use crate::value::Value;
use crate::coins::{Coin, RecentPost};
use crate::config::{Config, RunOptions};
use crate::numeral::{int_text, nat_text, i64_string, usize_string};
use crate::text::to_chars;

verus! {

/// Pair `p` holds `key` mapped to a number with text `num`.
pub open spec fn pair_is_num(p: (String, Value), key: Seq<char>, num: Seq<char>) -> bool {
    p.0@ == key && (match p.1 {
        Value::Num(s) => s@ == num,
        _ => false,
    })
}

/// Pair `p` holds `key` mapped to a string with text `txt`.
pub open spec fn pair_is_text(p: (String, Value), key: Seq<char>, txt: Seq<char>) -> bool {
    p.0@ == key && (match p.1 {
        Value::Text(s) => s@ == txt,
        _ => false,
    })
}

/// `v` is the mapping form of the record `c`: identifier, name, symbol
/// and rank always; the magnitude pair only when the record carries one.
pub open spec fn spec_coin_obj(v: Value, c: Coin) -> bool {
    match v {
        Value::Obj(pairs) => {
            &&& pairs@.len() == (match c.market_cap {
                Some(_) => 6int,
                None => 5int,
            })
            &&& pair_is_num(pairs@[0], "id"@, int_text(c.id as int))
            &&& pair_is_text(pairs@[1], "name"@, c.name@)
            &&& pair_is_text(pairs@[2], "symbol"@, c.symbol@)
            &&& pair_is_num(pairs@[3], "cmc_rank"@, int_text(c.rank as int))
            &&& (match c.market_cap {
                Some(mc) => pair_is_num(pairs@[4], "market_cap"@, mc@) && pair_is_text(
                    pairs@[5],
                    "market_cap_currency"@,
                    c.market_cap_currency@,
                ),
                None => pair_is_text(
                    pairs@[4],
                    "market_cap_currency"@,
                    c.market_cap_currency@,
                ),
            })
        },
        _ => false,
    }
}

/// `v` is a sequence holding the mapping form of each record in order.
pub open spec fn spec_coin_arr(v: Value, coins: Seq<Coin>) -> bool {
    match v {
        Value::Arr(items) => items@.len() == coins.len() && (forall|k: int|
            0 <= k < coins.len() ==> spec_coin_obj(#[trigger] items@[k], coins[k])),
        _ => false,
    }
}

/// `v` is the mapping form of a recent post.
pub open spec fn spec_post_obj(v: Value, p: RecentPost) -> bool {
    match v {
        Value::Obj(pairs) => {
            &&& pairs@.len() == 3
            &&& pair_is_text(pairs@[0], "created_at_utc"@, p.created_at_utc@)
            &&& pair_is_text(pairs@[1], "text"@, p.text@)
            &&& pairs@[2].0@ == "mentioned_coins"@
            &&& spec_coin_arr(pairs@[2].1, p.mentioned_coins@)
        },
        _ => false,
    }
}

/// `v` is the full rendering context for the given inputs.
pub open spec fn spec_context_obj(
    v: Value,
    c: Config,
    o: RunOptions,
    new_coins: Seq<Coin>,
    exited_coins: Seq<Coin>,
    recent_posts: Seq<RecentPost>,
    timestamp_utc: Seq<char>,
) -> bool {
    match v {
        Value::Obj(pairs) => {
            &&& pairs@.len() == 7
            &&& pair_is_text(pairs@[0], "project_name"@, "coinmarketcap_top100_bot"@)
            &&& pair_is_text(pairs@[1], "timestamp_utc"@, timestamp_utc)
            &&& pair_is_num(pairs@[2], "top_n"@, nat_text(c.top_n as int))
            &&& pair_is_text(pairs@[3], "convert"@, o.convert@)
            &&& pairs@[4].0@ == "new_coins"@
            &&& spec_coin_arr(pairs@[4].1, new_coins)
            &&& pairs@[5].0@ == "exited_coins"@
            &&& spec_coin_arr(pairs@[5].1, exited_coins)
            &&& pairs@[6].0@ == "recent_posts"@
            &&& (match pairs@[6].1 {
                Value::Arr(items) => items@.len() == recent_posts.len() && (forall|k: int|
                    0 <= k < recent_posts.len() ==> spec_post_obj(
                        #[trigger] items@[k],
                        recent_posts[k],
                    )),
                _ => false,
            })
        },
        _ => false,
    }
}

/// The mapping form of one record.
pub fn coin_value(c: &Coin) -> (v: Value)
    ensures
        spec_coin_obj(v, *c),
{
    let mut pairs: Vec<(String, Value)> = Vec::new();
    pairs.push((String::from_str("id"), Value::Num(i64_string(c.id))));
    pairs.push((String::from_str("name"), Value::Text(c.name.clone())));
    pairs.push((String::from_str("symbol"), Value::Text(c.symbol.clone())));
    pairs.push((String::from_str("cmc_rank"), Value::Num(i64_string(c.rank))));
    match &c.market_cap {
        Some(mc) => {
            pairs.push((String::from_str("market_cap"), Value::Num(mc.clone())));
        },
        None => {},
    }
    pairs.push(
        (String::from_str("market_cap_currency"), Value::Text(c.market_cap_currency.clone())),
    );
    Value::Obj(pairs)
}

/// The sequence form of a list of records.
pub fn coins_value(coins: &Vec<Coin>) -> (v: Value)
    ensures
        spec_coin_arr(v, coins@),
{
    let mut items: Vec<Value> = Vec::new();
    let mut i: usize = 0;
    while i < coins.len()
        invariant
            0 <= i <= coins@.len(),
            items@.len() == i,
            forall|k: int| 0 <= k < i ==> spec_coin_obj(#[trigger] items@[k], coins@[k]),
        decreases coins@.len() - i,
    {
        items.push(coin_value(&coins[i]));
        i = i + 1;
    }
    Value::Arr(items)
}

/// The mapping form of one recent post.
pub fn post_value(p: &RecentPost) -> (v: Value)
    ensures
        spec_post_obj(v, *p),
{
    let mut pairs: Vec<(String, Value)> = Vec::new();
    pairs.push((String::from_str("created_at_utc"), Value::Text(p.created_at_utc.clone())));
    pairs.push((String::from_str("text"), Value::Text(p.text.clone())));
    pairs.push((String::from_str("mentioned_coins"), coins_value(&p.mentioned_coins)));
    Value::Obj(pairs)
}

/// The rendering context: project name, timestamp, size limit, currency
/// code, the new and exited records, and the recent-post history.
pub fn build_render_context(
    config: &Config,
    options: &RunOptions,
    new_coins: &Vec<Coin>,
    exited_coins: &Vec<Coin>,
    recent_posts: &Vec<RecentPost>,
    timestamp_utc: &str,
) -> (v: Value)
    ensures
        spec_context_obj(
            v,
            *config,
            *options,
            new_coins@,
            exited_coins@,
            recent_posts@,
            timestamp_utc@,
        ),
{
    let mut posts: Vec<Value> = Vec::new();
    let mut i: usize = 0;
    while i < recent_posts.len()
        invariant
            0 <= i <= recent_posts@.len(),
            posts@.len() == i,
            forall|k: int| 0 <= k < i ==> spec_post_obj(#[trigger] posts@[k], recent_posts@[k]),
        decreases recent_posts@.len() - i,
    {
        posts.push(post_value(&recent_posts[i]));
        i = i + 1;
    }
    let mut pairs: Vec<(String, Value)> = Vec::new();
    pairs.push(
        (
            String::from_str("project_name"),
            Value::Text(String::from_str("coinmarketcap_top100_bot")),
        ),
    );
    pairs.push(
        (
            String::from_str("timestamp_utc"),
            Value::Text(crate::text::chars_to_string(&to_chars(timestamp_utc))),
        ),
    );
    pairs.push((String::from_str("top_n"), Value::Num(usize_string(config.top_n))));
    pairs.push((String::from_str("convert"), Value::Text(options.convert.clone())));
    pairs.push((String::from_str("new_coins"), coins_value(new_coins)));
    pairs.push((String::from_str("exited_coins"), coins_value(exited_coins)));
    pairs.push((String::from_str("recent_posts"), Value::Arr(posts)));
    Value::Obj(pairs)
}

} // verus!
