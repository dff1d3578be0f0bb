//! The optimisation settings: a text that must be well-formed JSON.
//!
//! Only the syntax is looked at. What the settings mean is the helper
//! script's business.

use crate::failure::{verdict_view, Failure, FailureView};
use vstd::prelude::*;

verus! {

/// What `serde_json::from_str` has against `text` read as one JSON value:
/// `None` where it parses the text, else the message of its error.
pub uninterp spec fn json_syntax_error(text: Seq<char>) -> Option<Seq<char>>;

/// Parses `text` with `serde_json::from_str` into a `serde_json::Value`,
/// drops the value and keeps the error's `Display` text.
///
/// Trusted: the answer is [`json_syntax_error`] of the text, that is, it
/// depends on the text alone.
#[verifier::external_body]
fn syntax_error_of(text: &str) -> (error: Option<String>)
    ensures
        error.deep_view() == json_syntax_error(text@),
{
    match serde_json::from_str::<serde_json::Value>(text) {
        Ok(_) => None,
        Err(error) => Some(error.to_string()),
    }
}

/// The verdict on a configuration, given what the parser had against it.
pub open spec fn config_verdict(error: Option<Seq<char>>) -> Result<(), FailureView> {
    match error {
        None => Ok(()),
        Some(reason) => Err(FailureView::InvalidConfig { reason }),
    }
}

/// Decides [`config_verdict`]: without an error the configuration passes,
/// with one it fails as [`Failure::InvalidConfig`] with the parser's message.
pub fn judge_config(error: Option<String>) -> (verdict: Result<(), Failure>)
    ensures
        verdict_view(verdict) == config_verdict(error.deep_view()),
{
    match error {
        None => Ok(()),
        Some(reason) => Err(Failure::InvalidConfig { reason }),
    }
}

/// Accepts `config` exactly when it is well-formed JSON.
pub fn check_config(config: &str) -> (verdict: Result<(), Failure>)
    ensures
        verdict_view(verdict) == config_verdict(json_syntax_error(config@)),
{
    judge_config(syntax_error_of(config))
}

} // verus!
