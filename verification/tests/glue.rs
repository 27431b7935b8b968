use coinmarketcap_top100_bot::coins::{coin_ids, indices_not_in, Coin, RecentPost};
use coinmarketcap_top100_bot::config::{Config, RunOptions};
use coinmarketcap_top100_bot::context::build_render_context;
use coinmarketcap_top100_bot::listing::{coins_from_listing, listing_url};
use coinmarketcap_top100_bot::messaging::{
    accept_ai_output, ai_usable, extract_gemini_text, send_outcome, SendOutcome,
};
use coinmarketcap_top100_bot::numeral::{i64_string, parse_i64, parse_usize, usize_string};
use coinmarketcap_top100_bot::render_template;
use coinmarketcap_top100_bot::Value;

fn text(s: &str) -> Value {
    Value::Text(s.to_string())
}

fn num(s: &str) -> Value {
    Value::Num(s.to_string())
}

fn obj(pairs: Vec<(&str, Value)>) -> Value {
    Value::Obj(pairs.into_iter().map(|(k, v)| (k.to_string(), v)).collect())
}

fn coin(id: i64, name: &str, symbol: &str, rank: i64, market_cap: Option<&str>) -> Coin {
    Coin {
        id,
        name: name.to_string(),
        symbol: symbol.to_string(),
        rank,
        market_cap: market_cap.map(|s| s.to_string()),
        market_cap_currency: "USD".to_string(),
    }
}

fn sample_config() -> Config {
    Config {
        cmc_api_key: "k".to_string(),
        telegram_token: "t".to_string(),
        telegram_channel_id: "c".to_string(),
        mongodb_connection_string: "m".to_string(),
        mongodb_db: "cmc_top".to_string(),
        mongodb_state_collection: "state".to_string(),
        mongodb_history_collection: "history".to_string(),
        top_n: 100,
        ai_enabled: true,
        ai_provider: "gemini".to_string(),
        ai_model: "gemini-3-flash-preview".to_string(),
        gemini_api_key: Some("g".to_string()),
    }
}

#[test]
fn numerals_round_trip() {
    assert_eq!(usize_string(0), "0");
    assert_eq!(usize_string(100), "100");
    assert_eq!(i64_string(-42), "-42");
    assert_eq!(i64_string(7), "7");
    assert_eq!(parse_usize("007"), Some(7));
    assert_eq!(parse_usize("+42"), Some(42));
    assert_eq!(parse_usize(""), None);
    assert_eq!(parse_usize("12a"), None);
    assert_eq!(parse_usize("99999999999999999999999"), None);
    assert_eq!(parse_i64("-5"), Some(-5));
    assert_eq!(parse_i64("9223372036854775807"), Some(i64::MAX));
    assert_eq!(parse_i64("-9223372036854775808"), Some(i64::MIN));
    assert_eq!(parse_i64("9223372036854775808"), None);
    assert_eq!(parse_i64("3.5"), None);
}

#[test]
fn diffing_selects_new_entrants_in_order() {
    let ids: Vec<i64> = vec![10, 20, 30, 40];
    let prev: Vec<i64> = vec![20, 40, 99];
    assert_eq!(indices_not_in(&ids, &prev), vec![0, 2]);
    assert_eq!(indices_not_in(&prev, &ids), vec![2]);
    assert_eq!(indices_not_in(&ids, &ids), Vec::<usize>::new());
}

#[test]
fn coin_ids_projects_identifiers() {
    let coins = vec![coin(3, "a", "A", 1, None), coin(9, "b", "B", 2, None)];
    assert_eq!(coin_ids(&coins), vec![3, 9]);
}

#[test]
fn listing_url_encodes_the_currency() {
    assert_eq!(
        listing_url(100, "USD"),
        "https://pro-api.coinmarketcap.com/v1/cryptocurrency/listings/latest?start=1&limit=100&convert=USD&sort=market_cap&sort_dir=desc"
    );
    // a currency code needing encoding shows the encoder at work
    assert_eq!(
        listing_url(5, "US D"),
        "https://pro-api.coinmarketcap.com/v1/cryptocurrency/listings/latest?start=1&limit=5&convert=US%20D&sort=market_cap&sort_dir=desc"
    );
}

#[test]
fn listing_payload_is_read_with_fallbacks() {
    let payload = obj(vec![(
        "data",
        Value::Arr(vec![
            obj(vec![
                ("id", num("1")),
                ("name", text("Bitcoin")),
                ("symbol", text("BTC")),
                ("cmc_rank", num("1")),
                (
                    "quote",
                    obj(vec![("USD", obj(vec![("market_cap", num("123.45"))]))]),
                ),
            ]),
            obj(vec![]),
        ]),
    )]);
    let coins = coins_from_listing(&payload, "USD").unwrap();
    assert_eq!(coins.len(), 2);
    assert_eq!(coins[0].id, 1);
    assert_eq!(coins[0].name, "Bitcoin");
    assert_eq!(coins[0].symbol, "BTC");
    assert_eq!(coins[0].rank, 1);
    assert_eq!(coins[0].market_cap.as_deref(), Some("123.45"));
    assert_eq!(coins[0].market_cap_currency, "USD");
    assert_eq!(coins[1].id, 0);
    assert_eq!(coins[1].name, "Unknown");
    assert_eq!(coins[1].symbol, "???");
    assert_eq!(coins[1].rank, 0);
    assert!(coins[1].market_cap.is_none());
}

#[test]
fn listing_payload_without_data_array_is_rejected() {
    assert!(coins_from_listing(&obj(vec![]), "USD").is_none());
    assert!(coins_from_listing(&obj(vec![("data", text("x"))]), "USD").is_none());
}

#[test]
fn drafting_applies_only_with_provider_and_key() {
    let cfg = sample_config();
    assert!(ai_usable(&cfg));
    let mut off = sample_config();
    off.ai_enabled = false;
    assert!(!ai_usable(&off));
    let mut other = sample_config();
    other.ai_provider = "other".to_string();
    assert!(!ai_usable(&other));
    let mut keyless = sample_config();
    keyless.gemini_api_key = None;
    assert!(!ai_usable(&keyless));
}

#[test]
fn drafted_output_is_accepted_when_nonblank() {
    assert!(accept_ai_output("hello"));
    assert!(accept_ai_output("  x  "));
    assert!(!accept_ai_output(""));
    assert!(!accept_ai_output("   \n\t "));
}

#[test]
fn generation_response_text_is_extracted_and_trimmed() {
    let response = obj(vec![(
        "candidates",
        Value::Arr(vec![obj(vec![(
            "content",
            obj(vec![(
                "parts",
                Value::Arr(vec![obj(vec![("text", text("  hello there\n"))])]),
            )]),
        )])]),
    )]);
    assert_eq!(extract_gemini_text(&response), "hello there");
    assert_eq!(extract_gemini_text(&obj(vec![])), "");
    assert_eq!(
        extract_gemini_text(&obj(vec![("candidates", Value::Arr(vec![]))])),
        ""
    );
}

#[test]
fn send_acknowledgement_is_read_exactly() {
    let ok = obj(vec![
        ("ok", Value::Bool(true)),
        ("result", obj(vec![("message_id", num("42"))])),
    ]);
    assert!(matches!(send_outcome(&ok), SendOutcome::Accepted(Some(42))));
    let ok_no_id = obj(vec![("ok", Value::Bool(true))]);
    assert!(matches!(send_outcome(&ok_no_id), SendOutcome::Accepted(None)));
    let not_ok = obj(vec![("ok", Value::Bool(false))]);
    assert!(matches!(send_outcome(&not_ok), SendOutcome::Rejected));
    assert!(matches!(send_outcome(&obj(vec![])), SendOutcome::Rejected));
}

#[test]
fn render_context_feeds_the_renderer() {
    let cfg = sample_config();
    let opts = RunOptions {
        dry_run: false,
        notify_exits: false,
        convert: "USD".to_string(),
    };
    let new_coins = vec![
        coin(1, "Bitcoin", "BTC", 1, Some("123.45")),
        coin(2, "Ether", "ETH", 2, None),
    ];
    let exited: Vec<Coin> = Vec::new();
    let posts = vec![RecentPost {
        created_at_utc: "2026-01-01T00:00:00+00:00".to_string(),
        text: "earlier post".to_string(),
        mentioned_coins: vec![coin(1, "Bitcoin", "BTC", 1, None)],
    }];
    let ctx = build_render_context(&cfg, &opts, &new_coins, &exited, &posts, "now");
    let out = render_template(
        "%project_name%|%timestamp_utc%|%top_n%|%convert%|%EACH new_coins%%symbol%(%cmc_rank%) %END_EACH%|%EACH recent_posts%%text%%END_EACH%",
        &ctx,
    );
    assert_eq!(
        out,
        "coinmarketcap_top100_bot|now|100|USD|BTC(1) ETH(2) |earlier post"
    );
}
