//! The checks a request passes before anything is done for it.

use crate::config::{check_config, config_verdict, json_syntax_error};
use crate::failure::{verdict_view, Failure, FailureView};
use crate::paths::{has_glb_extension, is_glb_path};
use vstd::prelude::*;
use vstd::string::*;

verus! {

/// The verdict on a request, given what was found out about it: whether
/// anything exists at the input path, whether the path names a GLB file, and
/// what the JSON parser had against the configuration.
///
/// The checks are made in this order and the first that fails decides.
pub open spec fn request_verdict(
    exists: bool,
    input_path: Seq<char>,
    glb: bool,
    syntax_error: Option<Seq<char>>,
) -> Result<(), FailureView> {
    if !exists {
        Err(FailureView::InputMissing { path: input_path })
    } else if !glb {
        Err(FailureView::NotGlb)
    } else {
        config_verdict(syntax_error)
    }
}

/// The verdict on the request to optimise the file at `input_path` with the
/// settings `config`, where `exists` says whether anything is at that path.
pub open spec fn validation(exists: bool, input_path: Seq<char>, config: Seq<char>) -> Result<
    (),
    FailureView,
> {
    request_verdict(exists, input_path, is_glb_path(input_path), json_syntax_error(config))
}

/// Whether a request passes every check.
pub open spec fn acceptable(input_path: Seq<char>, config: Seq<char>) -> bool {
    is_glb_path(input_path) && json_syntax_error(config) is None
}

/// Validates a request: the input must exist, its path must name a GLB file,
/// and the configuration must be well-formed JSON.
pub fn validate(exists: bool, input_path: &str, config: &str) -> (verdict: Result<(), Failure>)
    ensures
        verdict_view(verdict) == validation(exists, input_path@, config@),
{
    if !exists {
        Err(Failure::InputMissing { path: String::from_str(input_path) })
    } else if !has_glb_extension(input_path) {
        Err(Failure::NotGlb)
    } else {
        check_config(config)
    }
}

} // verus!
