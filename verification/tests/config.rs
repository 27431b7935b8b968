use coinmarketcap_top100_bot::{Config, ConfigError, EnvVars};

fn full_env() -> EnvVars {
    EnvVars {
        cmc_api_key: Some("cmc-key".to_string()),
        telegram_token: Some("tg-token".to_string()),
        telegram_channel_id: Some("@channel".to_string()),
        mongodb_connection_string: Some("mongodb://localhost".to_string()),
        mongodb_db: None,
        mongodb_state_collection: None,
        mongodb_history_collection: None,
        top_n: None,
        gemini_api_key: None,
        ai_enabled: None,
        ai_provider: None,
        ai_model: None,
    }
}

#[test]
fn defaults_fill_unset_variables() {
    let cfg = Config::from_env(&full_env()).unwrap();
    assert_eq!(cfg.cmc_api_key, "cmc-key");
    assert_eq!(cfg.mongodb_db, "cmc_top");
    assert_eq!(cfg.mongodb_state_collection, "state");
    assert_eq!(cfg.mongodb_history_collection, "history");
    assert_eq!(cfg.top_n, 100);
    assert_eq!(cfg.ai_provider, "gemini");
    assert_eq!(cfg.ai_model, "gemini-3-flash-preview");
    assert!(!cfg.ai_enabled);
    assert!(cfg.gemini_api_key.is_none());
}

#[test]
fn missing_cmc_api_key_is_the_first_error() {
    let mut env = full_env();
    env.cmc_api_key = None;
    env.telegram_token = None;
    assert!(matches!(
        Config::from_env(&env),
        Err(ConfigError::MissingCmcApiKey)
    ));
}

#[test]
fn missing_telegram_credentials_fail_a_live_run() {
    let mut env = full_env();
    env.telegram_token = None;
    assert!(matches!(
        Config::from_env(&env),
        Err(ConfigError::MissingTelegramToken)
    ));
    let mut env2 = full_env();
    env2.telegram_channel_id = None;
    assert!(matches!(
        Config::from_env(&env2),
        Err(ConfigError::MissingTelegramChannelId)
    ));
}

#[test]
fn dry_run_tolerates_missing_telegram_credentials() {
    let mut env = full_env();
    env.telegram_token = None;
    env.telegram_channel_id = None;
    let cfg = Config::from_env_for_dry_run(&env).unwrap();
    assert_eq!(cfg.telegram_token, "");
    assert_eq!(cfg.telegram_channel_id, "");
}

#[test]
fn missing_mongodb_connection_string_is_an_error() {
    let mut env = full_env();
    env.mongodb_connection_string = None;
    assert!(matches!(
        Config::from_env(&env),
        Err(ConfigError::MissingMongodbConnectionString)
    ));
}

#[test]
fn top_n_must_be_a_positive_integer() {
    let mut env = full_env();
    env.top_n = Some("abc".to_string());
    assert!(matches!(
        Config::from_env(&env),
        Err(ConfigError::TopNNotANumber)
    ));
    env.top_n = Some("".to_string());
    assert!(matches!(
        Config::from_env(&env),
        Err(ConfigError::TopNNotANumber)
    ));
    env.top_n = Some("0".to_string());
    assert!(matches!(Config::from_env(&env), Err(ConfigError::TopNZero)));
    env.top_n = Some("25".to_string());
    assert_eq!(Config::from_env(&env).unwrap().top_n, 25);
    env.top_n = Some("+07".to_string());
    assert_eq!(Config::from_env(&env).unwrap().top_n, 7);
}

#[test]
fn gemini_key_enables_drafting_by_default() {
    let mut env = full_env();
    env.gemini_api_key = Some("g-key".to_string());
    let cfg = Config::from_env(&env).unwrap();
    assert!(cfg.ai_enabled);
    assert_eq!(cfg.gemini_api_key.as_deref(), Some("g-key"));

    env.gemini_api_key = Some("".to_string());
    let cfg = Config::from_env(&env).unwrap();
    assert!(!cfg.ai_enabled);
    assert!(cfg.gemini_api_key.is_none());
}

#[test]
fn ai_enabled_flag_overrides_the_key_heuristic() {
    let mut env = full_env();
    env.gemini_api_key = Some("g-key".to_string());
    env.ai_enabled = Some("false".to_string());
    assert!(!Config::from_env(&env).unwrap().ai_enabled);
    env.ai_enabled = Some("TRUE".to_string());
    assert!(Config::from_env(&env).unwrap().ai_enabled);
    env.ai_enabled = Some("TrUe".to_string());
    assert!(Config::from_env(&env).unwrap().ai_enabled);
    env.gemini_api_key = None;
    env.ai_enabled = Some("true".to_string());
    assert!(Config::from_env(&env).unwrap().ai_enabled);
}

#[test]
fn error_messages_name_the_variable() {
    assert_eq!(
        ConfigError::MissingCmcApiKey.message(),
        "missing required env var CMC_API_KEY"
    );
    assert_eq!(ConfigError::TopNZero.message(), "TOP_N must be > 0");
    assert_eq!(
        ConfigError::TopNNotANumber.message(),
        "TOP_N must be a positive integer"
    );
}
