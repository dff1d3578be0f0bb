//! What a finished helper process means for the caller.

use crate::failure::{outcome_view, Failure, FailureView};
use vstd::prelude::*;
use vstd::utf8::{decode_utf8, valid_utf8};

verus! {

/// The text that `String::from_utf8_lossy` makes of bytes that are not valid
/// UTF-8: every invalid sequence becomes U+FFFD.
pub uninterp spec fn utf8_lossy(bytes: Seq<u8>) -> Seq<char>;

/// The text of a process's output: the text that the bytes encode where they
/// are valid UTF-8, else that text with the invalid parts replaced.
pub open spec fn output_text(bytes: Seq<u8>) -> Seq<char> {
    if valid_utf8(bytes) {
        decode_utf8(bytes)
    } else {
        utf8_lossy(bytes)
    }
}

/// Decodes `bytes` with `String::from_utf8_lossy`.
///
/// Trusted: valid UTF-8 comes back as the text it encodes, unchanged; of
/// other bytes the answer is [`utf8_lossy`], that is, it depends on the
/// bytes alone.
#[verifier::external_body]
fn decode_lossy(bytes: &[u8]) -> (text: String)
    ensures
        valid_utf8(bytes@) ==> text@ == decode_utf8(bytes@),
        !valid_utf8(bytes@) ==> text@ == utf8_lossy(bytes@),
{
    String::from_utf8_lossy(bytes).into_owned()
}

/// The outcome of a run, given whether the helper reported success and the
/// text of the stream that matters: standard output on success, standard
/// error otherwise. Neither is looked into.
pub open spec fn exit_outcome(success: bool, text: Seq<char>) -> Result<Seq<char>, FailureView> {
    if success {
        Ok(text)
    } else {
        Err(FailureView::ScriptFailed { diagnostics: text })
    }
}

/// The outcome of a run whose streams were captured as `stdout` and
/// `stderr`.
pub open spec fn process_outcome(success: bool, stdout: Seq<u8>, stderr: Seq<u8>) -> Result<
    Seq<char>,
    FailureView,
> {
    exit_outcome(
        success,
        if success {
            output_text(stdout)
        } else {
            output_text(stderr)
        },
    )
}

/// Decides [`exit_outcome`]: on success `text` is the report, handed on as
/// it is; otherwise it is the helper's diagnostics.
pub fn judge_exit(success: bool, text: String) -> (outcome: Result<String, Failure>)
    ensures
        outcome_view(outcome) == exit_outcome(success, text@),
{
    if success {
        Ok(text)
    } else {
        Err(Failure::ScriptFailed { diagnostics: text })
    }
}

/// Reads the outcome off a finished process: its standard output as the
/// report where it exited with success, else its standard error as the
/// diagnostics. The stream is decoded leniently and not otherwise touched.
pub fn read_exit(success: bool, stdout: &[u8], stderr: &[u8]) -> (outcome: Result<String, Failure>)
    ensures
        outcome_view(outcome) == process_outcome(success, stdout@, stderr@),
{
    if success {
        judge_exit(true, decode_lossy(stdout))
    } else {
        judge_exit(false, decode_lossy(stderr))
    }
}

} // verus!
