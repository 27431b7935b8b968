//! The pure side of the two messaging collaborators: deciding whether
//! the drafting step applies, reading its response, and reading the
//! send acknowledgement.

use vstd::prelude::*;
use vstd::string::StrSliceExecFns;
use crate::value::{Value, spec_get};
use crate::text::{spec_trim, trim_chars, to_chars, chars_to_string, str_eq};
use crate::numeral::{spec_parse_i64, parse_i64};

verus! {

/// The drafting step applies when it is enabled, the configured
/// provider is the supported one, and a key is present.
pub fn ai_usable(config: &crate::config::Config) -> (r: bool)
    ensures
        r == (config.ai_enabled && config.ai_provider@ == "gemini"@ && config.gemini_api_key
            is Some),
{
    config.ai_enabled && str_eq(config.ai_provider.as_str(), "gemini")
        && config.gemini_api_key.is_some()
}

/// A drafted text is accepted when something is left after trimming.
pub fn accept_ai_output(text: &str) -> (r: bool)
    ensures
        r == (spec_trim(text@).len() > 0),
{
    let cs = to_chars(text);
    let trimmed = trim_chars(&cs);
    trimmed.len() > 0
}

/// The drafted text inside a generation response, before trimming:
/// the string under `candidates[0].content.parts[0].text`, or empty
/// where that path does not exist.
pub open spec fn spec_gemini_raw(v: Value) -> Seq<char> {
    match spec_get(v, "candidates"@) {
        Some(Value::Arr(items)) => if items@.len() > 0 {
            match spec_get(items@[0], "content"@) {
                Some(c) => match spec_get(c, "parts"@) {
                    Some(Value::Arr(parts)) => if parts@.len() > 0 {
                        match spec_get(parts@[0], "text"@) {
                            Some(Value::Text(s)) => s@,
                            _ => Seq::empty(),
                        }
                    } else {
                        Seq::empty()
                    },
                    _ => Seq::empty(),
                },
                None => Seq::empty(),
            }
        } else {
            Seq::empty()
        },
        _ => Seq::empty(),
    }
}

/// The drafted text of a generation response, trimmed of surrounding
/// whitespace; empty when the response carries none.
pub fn extract_gemini_text(response: &Value) -> (r: String)
    ensures
        r@ == spec_trim(spec_gemini_raw(*response)),
{
    let raw: String = match response.get_member("candidates") {
        Some(Value::Arr(items)) => {
            if items.len() > 0 {
                match items[0].get_member("content") {
                    Some(c) => match c.get_member("parts") {
                        Some(Value::Arr(parts)) => {
                            if parts.len() > 0 {
                                match parts[0].get_member("text") {
                                    Some(Value::Text(s)) => s.clone(),
                                    _ => String::new(),
                                }
                            } else {
                                String::new()
                            }
                        },
                        _ => String::new(),
                    },
                    None => String::new(),
                }
            } else {
                String::new()
            }
        },
        _ => String::new(),
    };
    let cs = to_chars(raw.as_str());
    let trimmed = trim_chars(&cs);
    chars_to_string(&trimmed)
}

/// The outcome of a send call, read from the messaging API's response.
pub enum SendOutcome {
    Accepted(Option<i64>),
    Rejected,
}

/// The message identifier under `result.message_id`, when that path
/// ends at a number in range.
pub open spec fn spec_message_id(v: Value) -> Option<i64> {
    match spec_get(v, "result"@) {
        Some(res) => match spec_get(res, "message_id"@) {
            Some(Value::Num(s)) => match spec_parse_i64(s@) {
                Some(n) => Some(n as i64),
                None => None,
            },
            _ => None,
        },
        None => None,
    }
}

/// Accepted exactly when the response's `ok` member is the boolean
/// true; an accepted response carries the message identifier when one
/// can be read.
pub fn send_outcome(response: &Value) -> (r: SendOutcome)
    ensures
        match r {
            SendOutcome::Accepted(id) => spec_get(*response, "ok"@) == Some(Value::Bool(true)) && id
                == spec_message_id(*response),
            SendOutcome::Rejected => spec_get(*response, "ok"@) != Some(Value::Bool(true)),
        },
{
    let ok = match response.get_member("ok") {
        Some(Value::Bool(b)) => *b,
        _ => false,
    };
    if !ok {
        return SendOutcome::Rejected;
    }
    let id: Option<i64> = match response.get_member("result") {
        Some(res) => match res.get_member("message_id") {
            Some(Value::Num(s)) => parse_i64(s.as_str()),
            _ => None,
        },
        None => None,
    };
    SendOutcome::Accepted(id)
}

} // verus!
