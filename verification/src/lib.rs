//! A verified template rendering engine with its surrounding pure logic.
//!
//! The core interprets a small directive language over a JSON-like value
//! tree: variable substitution with literal defaults, conditionals,
//! iteration over sequences, and percent escaping. Around it stand the
//! pure parts of the surrounding tool: configuration assembly from
//! environment snapshots, top-list diffing, render-context construction,
//! and parsing of collaborator responses.

pub mod coins;
pub mod config;
pub mod context;
pub mod listing;
pub mod messaging;
pub mod numeral;
pub mod render;
pub mod scope;
pub mod text;
pub mod value;

pub use coins::{Coin, RecentPost, coin_ids, indices_not_in};
pub use config::{Config, ConfigError, EnvVars, RunOptions};
pub use context::build_render_context;
pub use render::render_template;
pub use value::Value;
