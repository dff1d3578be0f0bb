//! What holds of every run of a job, whatever its driver answers.

use crate::config::json_syntax_error;
use crate::failure::{lemma_message_tells_failure, FailureView};
use crate::job::{accounted_for, JobView, ReplyView, RequestView, StepView};
use crate::output::output_text;
use crate::paths::{is_glb_path, output_location, script_location};
use crate::validation::acceptable;
use vstd::prelude::*;
use vstd::utf8::{decode_utf8, valid_utf8};

verus! {

impl JobView {
    /// Where the job stands after `replies`, handed to it one after another.
    /// Once the job is over, further replies change nothing.
    pub open spec fn run(self, replies: Seq<ReplyView>) -> StepView
        decreases replies.len(),
    {
        if replies.len() == 0 {
            StepView::Continue(self)
        } else {
            match self.step(replies.first()) {
                StepView::Continue(next) => next.run(replies.drop_first()),
                StepView::Done(outcome) => StepView::Done(outcome),
            }
        }
    }
}

/// One answer takes a job that follows from a request to a job that follows
/// from it, or to an outcome that the request accounts for.
proof fn lemma_step_follows(
    job: JobView,
    input_path: Seq<char>,
    config: Seq<char>,
    reply: ReplyView,
)
    requires
        job.follows(input_path, config),
    ensures
        match job.step(reply) {
            StepView::Continue(next) => next.follows(input_path, config),
            StepView::Done(outcome) => accounted_for(outcome, input_path, config),
        },
{
}

/// Any number of answers does the same.
proof fn lemma_run_follows(
    job: JobView,
    input_path: Seq<char>,
    config: Seq<char>,
    replies: Seq<ReplyView>,
)
    requires
        job.follows(input_path, config),
    ensures
        match job.run(replies) {
            StepView::Continue(last) => last.follows(input_path, config),
            StepView::Done(outcome) => accounted_for(outcome, input_path, config),
        },
    decreases replies.len(),
{
    if replies.len() > 0 {
        lemma_step_follows(job, input_path, config, replies.first());
        match job.step(replies.first()) {
            StepView::Continue(next) => {
                lemma_run_follows(next, input_path, config, replies.drop_first());
            },
            StepView::Done(_) => {},
        }
    }
}

/// Whatever the driver answers, and however often, a job stays one that
/// follows from its request, and ends only in an outcome that the request
/// accounts for. In particular the helper is launched, and a report or a
/// failure of the helper is given, only for a request that passed every
/// check.
pub proof fn lemma_run_is_accounted_for(
    input_path: Seq<char>,
    config: Seq<char>,
    replies: Seq<ReplyView>,
)
    ensures
        match JobView::initial(input_path, config).run(replies) {
            StepView::Continue(job) => job.follows(input_path, config),
            StepView::Done(outcome) => accounted_for(outcome, input_path, config),
        },
{
    lemma_run_follows(JobView::initial(input_path, config), input_path, config, replies);
}

/// A job asks for the helper to be launched only after its request has
/// passed every check, and then as `node` with the script, the input, the
/// configuration and the output, in this order.
pub proof fn lemma_launch_follows_validation(
    input_path: Seq<char>,
    config: Seq<char>,
    replies: Seq<ReplyView>,
)
    ensures
        match JobView::initial(input_path, config).run(replies) {
            StepView::Continue(job) => job.request() is Launch ==> {
                &&& acceptable(input_path, config)
                &&& job.request() == RequestView::Launch {
                    program: "node"@,
                    arguments: seq![job.script_path, input_path, config, job.output_path],
                }
                &&& exists|resources: Seq<char>| job.script_path == script_location(resources)
                &&& exists|scratch: Seq<char>| job.output_path == output_location(scratch)
            },
            StepView::Done(_) => true,
        },
{
    lemma_run_is_accounted_for(input_path, config, replies);
}

/// For an input path that does not end in `.glb`, nothing is ever asked but
/// whether the input exists, and the only outcomes are that it is missing
/// and that it is no GLB file. No process is launched.
pub proof fn lemma_wrong_ending_stops_at_validation(
    input_path: Seq<char>,
    config: Seq<char>,
    replies: Seq<ReplyView>,
)
    requires
        !".glb"@.is_suffix_of(input_path),
    ensures
        match JobView::initial(input_path, config).run(replies) {
            StepView::Continue(job) => job == JobView::initial(input_path, config),
            StepView::Done(outcome) => outcome == Err::<Seq<char>, FailureView>(
                FailureView::InputMissing { path: input_path },
            ) || outcome == Err::<Seq<char>, FailureView>(FailureView::NotGlb),
        },
{
    lemma_run_is_accounted_for(input_path, config, replies);
}

/// For a configuration that is not well-formed JSON, nothing is ever asked
/// but whether the input exists, and the only outcomes are the failures of
/// validation: a missing input, a path that names no GLB file, or the
/// parser's message. No process is launched.
pub proof fn lemma_malformed_config_stops_at_validation(
    input_path: Seq<char>,
    config: Seq<char>,
    replies: Seq<ReplyView>,
)
    requires
        (json_syntax_error(config) is Some),
    ensures
        match JobView::initial(input_path, config).run(replies) {
            StepView::Continue(job) => job == JobView::initial(input_path, config),
            StepView::Done(outcome) => {
                ||| outcome == Err::<Seq<char>, FailureView>(
                    FailureView::InputMissing { path: input_path },
                )
                ||| outcome == Err::<Seq<char>, FailureView>(FailureView::NotGlb)
                ||| outcome == Err::<Seq<char>, FailureView>(
                    FailureView::InvalidConfig { reason: json_syntax_error(config)->0 },
                )
            },
        },
{
    lemma_run_is_accounted_for(input_path, config, replies);
}

/// A reply that does not answer what the job asks changes nothing: the job
/// stays as it is and goes on asking.
pub proof fn lemma_stray_reply_changes_nothing(job: JobView, reply: ReplyView)
    requires
        !reply.answers(job.request()),
    ensures
        job.step(reply) == StepView::Continue(job),
{
}

/// An answer to what the job asks ends the job or takes it one stage on,
/// with the same request. So a job is over after five answers at most, and
/// nothing is tried a second time.
pub proof fn lemma_answer_moves_on(job: JobView, reply: ReplyView)
    requires
        reply.answers(job.request()),
    ensures
        match job.step(reply) {
            StepView::Continue(next) => {
                &&& next.stage.answers_left() + 1 == job.stage.answers_left()
                &&& next.input_path == job.input_path
                &&& next.config == job.config
            },
            StepView::Done(_) => true,
        },
{
}

/// The output path is made of the temporary directory alone: two jobs that
/// are told the same directory write to the same file, whatever their
/// requests are.
pub proof fn lemma_output_path_is_shared(a: JobView, b: JobView, directory: Seq<char>)
    requires
        (a.stage is LocatingScratch),
        (b.stage is LocatingScratch),
    ensures
        a.step((ReplyView::Scratch { directory })) matches StepView::Continue(next)
            && next.output_path == output_location(directory),
        b.step((ReplyView::Scratch { directory })) matches StepView::Continue(next)
            && next.output_path == output_location(directory),
{
}

/// Where nothing exists at the input path, the job ends at once with the
/// failure that says so and names the path, whatever the path and the
/// configuration are.
pub proof fn lemma_missing_input_is_reported(input_path: Seq<char>, config: Seq<char>)
    ensures
        JobView::initial(input_path, config).step((ReplyView::Probed { exists: false }))
            == StepView::Done(Err((FailureView::InputMissing { path: input_path }))),
        (FailureView::InputMissing { path: input_path }).message()
            == "Input file does not exist: "@ + input_path,
{
}

/// Where the input exists and its path names a GLB file, a configuration
/// that is not well-formed JSON ends the job at once with the parser's
/// message.
pub proof fn lemma_malformed_config_is_reported(input_path: Seq<char>, config: Seq<char>)
    requires
        is_glb_path(input_path),
        (json_syntax_error(config) is Some),
    ensures
        JobView::initial(input_path, config).step((ReplyView::Probed { exists: true }))
            == StepView::Done(
            Err((FailureView::InvalidConfig { reason: json_syntax_error(config)->0 })),
        ),
        (FailureView::InvalidConfig { reason: json_syntax_error(config)->0 }).message()
            == "Invalid config JSON: "@ + json_syntax_error(config)->0,
{
}

/// An unknown resource directory and a missing helper script are different
/// failures with different messages: the first comes of the host's answer
/// and carries its reason, the second comes of the probe and names the path
/// at which the script was looked for.
pub proof fn lemma_script_troubles_are_told_apart(
    job: JobView,
    reason: Seq<char>,
)
    ensures
        job.stage is LocatingResources ==> job.step(
            (ReplyView::Resources { resolved: Err(reason) }),
        ) == StepView::Done(Err((FailureView::ResourcesUnavailable { reason }))),
        job.stage is ProbingScript ==> job.step((ReplyView::Probed { exists: false }))
            == StepView::Done(Err((FailureView::ScriptMissing { path: job.script_path }))),
        (FailureView::ResourcesUnavailable { reason }).message() != (FailureView::ScriptMissing {
            path: job.script_path,
        }).message(),
{
    if (FailureView::ResourcesUnavailable { reason }).message() == (FailureView::ScriptMissing {
        path: job.script_path,
    }).message() {
        lemma_message_tells_failure(
            FailureView::ResourcesUnavailable { reason },
            FailureView::ScriptMissing { path: job.script_path },
        );
    }
}

/// A helper that exits with success ends the job with its standard output
/// as the report: the text that the bytes encode, unchanged, where they are
/// valid UTF-8. Standard error plays no part.
pub proof fn lemma_success_relays_stdout(job: JobView, stdout: Seq<u8>, stderr: Seq<u8>)
    requires
        (job.stage is Running),
    ensures
        job.step((ReplyView::Exited { success: true, stdout, stderr })) == StepView::Done(
            Ok(output_text(stdout)),
        ),
        valid_utf8(stdout) ==> output_text(stdout) == decode_utf8(stdout),
{
}

/// A helper that exits with failure ends the job with a failure whose
/// message holds its standard error, after a fixed opening. Standard output
/// plays no part.
pub proof fn lemma_failure_relays_stderr(job: JobView, stdout: Seq<u8>, stderr: Seq<u8>)
    requires
        (job.stage is Running),
    ensures
        job.step((ReplyView::Exited { success: false, stdout, stderr })) == StepView::Done(
            Err((FailureView::ScriptFailed { diagnostics: output_text(stderr) })),
        ),
        (FailureView::ScriptFailed { diagnostics: output_text(stderr) }).message()
            == "Optimization script failed:\n"@ + output_text(stderr),
        valid_utf8(stderr) ==> output_text(stderr) == decode_utf8(stderr),
{
}

/// An interpreter that could not be started ends the job with a failure
/// whose message gives the reason and says to install Node.js and put it on
/// the search path.
pub proof fn lemma_launch_failure_is_reported(job: JobView, reason: Seq<char>)
    requires
        (job.stage is Running),
    ensures
        job.step((ReplyView::LaunchFailed { reason })) == StepView::Done(
            Err((FailureView::LaunchFailed { reason })),
        ),
        (FailureView::LaunchFailed { reason }).message() == "Failed to run node: "@ + reason
            + "\nMake sure Node.js is installed and available in PATH."@,
{
}

} // verus!
