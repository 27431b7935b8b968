//! Configuration assembly from a snapshot of environment values.
//!
//! Reading the environment is the caller's business; this module turns
//! the values read into a validated `Config`, with an exact account of
//! which snapshot produces which error.

use vstd::prelude::*;
use vstd::string::StrSliceExecFns;
use vstd::string::StringExecFns;
use crate::numeral::{spec_parse_usize, parse_usize};

verus! {

/// Per-invocation options chosen by the caller.
#[derive(Debug, Clone)]
pub struct RunOptions {
    pub dry_run: bool,
    pub notify_exits: bool,
    pub convert: String,
}

/// Validated configuration.
#[derive(Debug, Clone)]
pub struct Config {
    pub cmc_api_key: String,
    pub telegram_token: String,
    pub telegram_channel_id: String,
    pub mongodb_connection_string: String,
    pub mongodb_db: String,
    pub mongodb_state_collection: String,
    pub mongodb_history_collection: String,
    pub top_n: usize,
    pub ai_enabled: bool,
    pub ai_provider: String,
    pub ai_model: String,
    pub gemini_api_key: Option<String>,
}

/// A snapshot of the environment variables the configuration reads;
/// `None` stands for an unset variable.
pub struct EnvVars {
    pub cmc_api_key: Option<String>,
    pub telegram_token: Option<String>,
    pub telegram_channel_id: Option<String>,
    pub mongodb_connection_string: Option<String>,
    pub mongodb_db: Option<String>,
    pub mongodb_state_collection: Option<String>,
    pub mongodb_history_collection: Option<String>,
    pub top_n: Option<String>,
    pub gemini_api_key: Option<String>,
    pub ai_enabled: Option<String>,
    pub ai_provider: Option<String>,
    pub ai_model: Option<String>,
}

#[derive(Debug, Clone, Copy, PartialEq, Eq, Structural)]
pub enum ConfigError {
    MissingCmcApiKey,
    MissingTelegramToken,
    MissingTelegramChannelId,
    MissingMongodbConnectionString,
    TopNNotANumber,
    TopNZero,
}

/// The raw text the size limit is parsed from.
pub open spec fn spec_top_n_text(env: EnvVars) -> Seq<char> {
    match env.top_n {
        Some(s) => s@,
        None => "100"@,
    }
}

/// Case-insensitive match against the word `true`.
pub open spec fn spec_is_true_ci(s: Seq<char>) -> bool {
    s.len() == 4 && (s[0] == 't' || s[0] == 'T') && (s[1] == 'r' || s[1] == 'R') && (s[2] == 'u'
        || s[2] == 'U') && (s[3] == 'e' || s[3] == 'E')
}

/// A usable generative-AI key: set and nonempty.
pub open spec fn spec_gemini_present(env: EnvVars) -> bool {
    match env.gemini_api_key {
        Some(k) => k@.len() > 0,
        None => false,
    }
}

/// The first error the snapshot produces, in checking order, or none.
pub open spec fn spec_env_error(env: EnvVars, dry_run: bool) -> Option<ConfigError> {
    if env.cmc_api_key is None {
        Some(ConfigError::MissingCmcApiKey)
    } else if !dry_run && env.telegram_token is None {
        Some(ConfigError::MissingTelegramToken)
    } else if !dry_run && env.telegram_channel_id is None {
        Some(ConfigError::MissingTelegramChannelId)
    } else if env.mongodb_connection_string is None {
        Some(ConfigError::MissingMongodbConnectionString)
    } else if spec_parse_usize(spec_top_n_text(env)) is None {
        Some(ConfigError::TopNNotANumber)
    } else if spec_parse_usize(spec_top_n_text(env))->0 == 0 {
        Some(ConfigError::TopNZero)
    } else {
        None
    }
}

/// What a successfully built configuration holds, field by field.
pub open spec fn spec_config_matches(env: EnvVars, dry_run: bool, c: Config) -> bool {
    &&& c.cmc_api_key@ == env.cmc_api_key->0@
    &&& c.telegram_token@ == (match env.telegram_token {
        Some(s) => s@,
        None => Seq::<char>::empty(),
    })
    &&& c.telegram_channel_id@ == (match env.telegram_channel_id {
        Some(s) => s@,
        None => Seq::<char>::empty(),
    })
    &&& c.mongodb_connection_string@ == env.mongodb_connection_string->0@
    &&& c.mongodb_db@ == (match env.mongodb_db {
        Some(s) => s@,
        None => "cmc_top"@,
    })
    &&& c.mongodb_state_collection@ == (match env.mongodb_state_collection {
        Some(s) => s@,
        None => "state"@,
    })
    &&& c.mongodb_history_collection@ == (match env.mongodb_history_collection {
        Some(s) => s@,
        None => "history"@,
    })
    &&& Some(c.top_n as int) == spec_parse_usize(spec_top_n_text(env))
    &&& (match env.gemini_api_key {
        Some(k) => if k@.len() > 0 {
            c.gemini_api_key is Some && c.gemini_api_key->0@ == k@
        } else {
            c.gemini_api_key is None
        },
        None => c.gemini_api_key is None,
    })
    &&& c.ai_enabled == (match env.ai_enabled {
        Some(v) => spec_is_true_ci(v@),
        None => spec_gemini_present(env),
    })
    &&& c.ai_provider@ == (match env.ai_provider {
        Some(s) => s@,
        None => "gemini"@,
    })
    &&& c.ai_model@ == (match env.ai_model {
        Some(s) => s@,
        None => "gemini-3-flash-preview"@,
    })
}

/// The value when set, or the given error.
fn required(v: &Option<String>, missing: ConfigError) -> (r: Result<String, ConfigError>)
    ensures
        match r {
            Ok(s) => v is Some && s@ == v->0@,
            Err(e) => v is None && e == missing,
        },
{
    match v {
        Some(s) => Ok(s.clone()),
        None => Err(missing),
    }
}

/// The value when set, or the given default.
fn optional(v: &Option<String>, default: &str) -> (r: String)
    ensures
        r@ == (match v {
            Some(s) => s@,
            None => default@,
        }),
{
    match v {
        Some(s) => s.clone(),
        None => String::from_str(default),
    }
}

/// The value when set; empty when unset and missing values are allowed;
/// the given error otherwise.
fn optional_required(v: &Option<String>, allow_missing: bool, missing: ConfigError) -> (r: Result<
    String,
    ConfigError,
>)
    ensures
        match r {
            Ok(s) => match v {
                Some(t) => s@ == t@,
                None => allow_missing && s@ == Seq::<char>::empty(),
            },
            Err(e) => v is None && !allow_missing && e == missing,
        },
{
    match v {
        Some(s) => Ok(s.clone()),
        None => {
            if allow_missing {
                Ok(String::new())
            } else {
                Err(missing)
            }
        },
    }
}

fn eq_true_ci(s: &str) -> (r: bool)
    ensures
        r == spec_is_true_ci(s@),
{
    if s.unicode_len() != 4 {
        return false;
    }
    let c0 = s.get_char(0);
    let c1 = s.get_char(1);
    let c2 = s.get_char(2);
    let c3 = s.get_char(3);
    (c0 == 't' || c0 == 'T') && (c1 == 'r' || c1 == 'R') && (c2 == 'u' || c2 == 'U') && (c3 == 'e'
        || c3 == 'E')
}

impl Config {
    fn from_env_with_mode(env: &EnvVars, dry_run: bool) -> (r: Result<Config, ConfigError>)
        ensures
            match r {
                Ok(c) => spec_env_error(*env, dry_run) is None && spec_config_matches(
                    *env,
                    dry_run,
                    c,
                ),
                Err(e) => spec_env_error(*env, dry_run) == Some(e),
            },
    {
        let cmc_api_key = match required(&env.cmc_api_key, ConfigError::MissingCmcApiKey) {
            Ok(s) => s,
            Err(e) => {
                return Err(e);
            },
        };
        let telegram_token = match optional_required(
            &env.telegram_token,
            dry_run,
            ConfigError::MissingTelegramToken,
        ) {
            Ok(s) => s,
            Err(e) => {
                return Err(e);
            },
        };
        let telegram_channel_id = match optional_required(
            &env.telegram_channel_id,
            dry_run,
            ConfigError::MissingTelegramChannelId,
        ) {
            Ok(s) => s,
            Err(e) => {
                return Err(e);
            },
        };
        let mongodb_connection_string = match required(
            &env.mongodb_connection_string,
            ConfigError::MissingMongodbConnectionString,
        ) {
            Ok(s) => s,
            Err(e) => {
                return Err(e);
            },
        };
        let mongodb_db = optional(&env.mongodb_db, "cmc_top");
        let mongodb_state_collection = optional(&env.mongodb_state_collection, "state");
        let mongodb_history_collection = optional(&env.mongodb_history_collection, "history");
        let top_n_text = optional(&env.top_n, "100");
        let top_n = match parse_usize(top_n_text.as_str()) {
            Some(n) => n,
            None => {
                return Err(ConfigError::TopNNotANumber);
            },
        };
        if top_n == 0 {
            return Err(ConfigError::TopNZero);
        }
        let gemini_api_key: Option<String> = match &env.gemini_api_key {
            Some(k) => {
                if k.as_str().is_empty() {
                    None
                } else {
                    Some(k.clone())
                }
            },
            None => None,
        };
        let ai_enabled = match &env.ai_enabled {
            Some(v) => eq_true_ci(v.as_str()),
            None => gemini_api_key.is_some(),
        };
        let ai_provider = optional(&env.ai_provider, "gemini");
        let ai_model = optional(&env.ai_model, "gemini-3-flash-preview");
        Ok(
            Config {
                cmc_api_key,
                telegram_token,
                telegram_channel_id,
                mongodb_connection_string,
                mongodb_db,
                mongodb_state_collection,
                mongodb_history_collection,
                top_n,
                ai_enabled,
                ai_provider,
                ai_model,
                gemini_api_key,
            },
        )
    }

    /// Builds the configuration for a live run: the messaging credentials
    /// are required.
    pub fn from_env(env: &EnvVars) -> (r: Result<Config, ConfigError>)
        ensures
            match r {
                Ok(c) => spec_env_error(*env, false) is None && spec_config_matches(*env, false, c),
                Err(e) => spec_env_error(*env, false) == Some(e),
            },
    {
        Self::from_env_with_mode(env, false)
    }

    /// Builds the configuration for a dry run: missing messaging
    /// credentials degrade to empty strings.
    pub fn from_env_for_dry_run(env: &EnvVars) -> (r: Result<Config, ConfigError>)
        ensures
            match r {
                Ok(c) => spec_env_error(*env, true) is None && spec_config_matches(*env, true, c),
                Err(e) => spec_env_error(*env, true) == Some(e),
            },
    {
        Self::from_env_with_mode(env, true)
    }
}

impl ConfigError {
    /// A human-readable description of the error.
    pub fn message(&self) -> (r: String)
        ensures
            r@.len() > 0,
    {
        match self {
            ConfigError::MissingCmcApiKey => {
                let r = String::from_str("missing required env var CMC_API_KEY");
                proof {
                    reveal_strlit("missing required env var CMC_API_KEY");
                }
                r
            },
            ConfigError::MissingTelegramToken => {
                let r = String::from_str(
                    "missing required env var TELEGRAM_COINMARKETCAP_TOP_100_BOT_TOKEN",
                );
                proof {
                    reveal_strlit(
                        "missing required env var TELEGRAM_COINMARKETCAP_TOP_100_BOT_TOKEN",
                    );
                }
                r
            },
            ConfigError::MissingTelegramChannelId => {
                let r = String::from_str(
                    "missing required env var TELEGRAM_COINMARKETCAP_TOP_100_CHANNEL_ID",
                );
                proof {
                    reveal_strlit(
                        "missing required env var TELEGRAM_COINMARKETCAP_TOP_100_CHANNEL_ID",
                    );
                }
                r
            },
            ConfigError::MissingMongodbConnectionString => {
                let r = String::from_str("missing required env var MONGODB_CONNECTION_STRING");
                proof {
                    reveal_strlit("missing required env var MONGODB_CONNECTION_STRING");
                }
                r
            },
            ConfigError::TopNNotANumber => {
                let r = String::from_str("TOP_N must be a positive integer");
                proof {
                    reveal_strlit("TOP_N must be a positive integer");
                }
                r
            },
            ConfigError::TopNZero => {
                let r = String::from_str("TOP_N must be > 0");
                proof {
                    reveal_strlit("TOP_N must be > 0");
                }
                r
            },
        }
    }
}

} // verus!
