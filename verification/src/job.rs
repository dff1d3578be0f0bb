//! One optimisation from request to outcome, as a machine that asks and is
//! answered.
//!
//! A [`Job`] never touches the world. It says what it needs to know or have
//! done next ([`Job::request`]), is handed the answer ([`Job::advance`]), and
//! in the end gives the outcome. Whoever drives it looks at the file system,
//! asks the host for its directories and runs the process.

use crate::config::json_syntax_error;
use crate::failure::{outcome_view, Failure, FailureView};
use crate::output::{process_outcome, read_exit};
use crate::paths::{is_glb_path, locate_output, locate_script, output_location, script_location};
use crate::validation::{acceptable, validate, validation};
use vstd::prelude::*;
use vstd::string::*;

verus! {

/// What a job is waiting for.
#[derive(Debug, Clone, Copy, PartialEq, Eq, Structural)]
pub enum Stage {
    /// To learn whether the input exists.
    ProbingInput,
    /// To learn where the application's resources are.
    LocatingResources,
    /// To learn whether the helper script exists.
    ProbingScript,
    /// To learn where temporary files go.
    LocatingScratch,
    /// For the helper process to finish.
    Running,
}

/// What a job asks of its driver.
#[derive(Debug, PartialEq, Eq)]
pub enum Request {
    /// Does anything exist at `path`?
    ProbePath { path: String },
    /// Where is the application's resource directory?
    LocateResources,
    /// Where is the directory for temporary files?
    LocateScratch,
    /// Run `program` with `arguments`, wait for it, and capture what it
    /// writes to standard output and standard error.
    Launch { program: String, arguments: Vec<String> },
}

/// What the driver answers.
#[derive(Debug, PartialEq, Eq)]
pub enum Reply {
    /// To [`Request::ProbePath`].
    Probed { exists: bool },
    /// To [`Request::LocateResources`]: the directory, or why it is not known.
    Resources { resolved: Result<String, String> },
    /// To [`Request::LocateScratch`].
    Scratch { directory: String },
    /// To [`Request::Launch`]: the process ran and exited.
    Exited { success: bool, stdout: Vec<u8>, stderr: Vec<u8> },
    /// To [`Request::Launch`]: the process could not be started.
    LaunchFailed { reason: String },
}

/// An optimisation under way.
pub struct Job {
    stage: Stage,
    input_path: String,
    config: String,
    script_path: String,
    output_path: String,
}

/// Where a job stands after an answer.
pub enum Step {
    /// The job goes on and has another request.
    Continue(Job),
    /// The job is over: the helper's report, or the failure.
    Done(Result<String, Failure>),
}

/// A [`Request`] as a mathematical value.
pub enum RequestView {
    ProbePath { path: Seq<char> },
    LocateResources,
    LocateScratch,
    Launch { program: Seq<char>, arguments: Seq<Seq<char>> },
}

/// A [`Reply`] as a mathematical value.
pub enum ReplyView {
    Probed { exists: bool },
    Resources { resolved: Result<Seq<char>, Seq<char>> },
    Scratch { directory: Seq<char> },
    Exited { success: bool, stdout: Seq<u8>, stderr: Seq<u8> },
    LaunchFailed { reason: Seq<char> },
}

/// A [`Job`] as a mathematical value. The script path is empty until the
/// resources are known, the output path until the temporary directory is.
pub struct JobView {
    pub stage: Stage,
    pub input_path: Seq<char>,
    pub config: Seq<char>,
    pub script_path: Seq<char>,
    pub output_path: Seq<char>,
}

/// A [`Step`] as a mathematical value.
pub enum StepView {
    Continue(JobView),
    Done(Result<Seq<char>, FailureView>),
}

impl View for Request {
    type V = RequestView;

    open spec fn view(&self) -> RequestView {
        match self {
            Request::ProbePath { path } => RequestView::ProbePath { path: path@ },
            Request::LocateResources => RequestView::LocateResources,
            Request::LocateScratch => RequestView::LocateScratch,
            Request::Launch { program, arguments } => RequestView::Launch {
                program: program@,
                arguments: arguments.deep_view(),
            },
        }
    }
}

impl View for Reply {
    type V = ReplyView;

    open spec fn view(&self) -> ReplyView {
        match self {
            Reply::Probed { exists } => ReplyView::Probed { exists: *exists },
            Reply::Resources { resolved } => ReplyView::Resources {
                resolved: match resolved {
                    Ok(path) => Ok(path@),
                    Err(reason) => Err(reason@),
                },
            },
            Reply::Scratch { directory } => ReplyView::Scratch { directory: directory@ },
            Reply::Exited { success, stdout, stderr } => ReplyView::Exited {
                success: *success,
                stdout: stdout@,
                stderr: stderr@,
            },
            Reply::LaunchFailed { reason } => ReplyView::LaunchFailed { reason: reason@ },
        }
    }
}

impl View for Job {
    type V = JobView;

    closed spec fn view(&self) -> JobView {
        JobView {
            stage: self.stage,
            input_path: self.input_path@,
            config: self.config@,
            script_path: self.script_path@,
            output_path: self.output_path@,
        }
    }
}

impl View for Step {
    type V = StepView;

    open spec fn view(&self) -> StepView {
        match self {
            Step::Continue(job) => StepView::Continue(job@),
            Step::Done(outcome) => StepView::Done(outcome_view(*outcome)),
        }
    }
}

impl Stage {
    /// How many answers a job at this stage needs at most before it is over.
    pub open spec fn answers_left(self) -> nat {
        match self {
            Stage::ProbingInput => 5,
            Stage::LocatingResources => 4,
            Stage::ProbingScript => 3,
            Stage::LocatingScratch => 2,
            Stage::Running => 1,
        }
    }
}

impl ReplyView {
    /// Whether this reply is an answer to `request`.
    pub open spec fn answers(self, request: RequestView) -> bool {
        match request {
            RequestView::ProbePath { .. } => self is Probed,
            RequestView::LocateResources => self is Resources,
            RequestView::LocateScratch => self is Scratch,
            RequestView::Launch { .. } => self is Exited || self is LaunchFailed,
        }
    }
}

impl JobView {
    /// The job for a request, before anything is known about it.
    pub open spec fn initial(input_path: Seq<char>, config: Seq<char>) -> JobView {
        JobView {
            stage: Stage::ProbingInput,
            input_path,
            config,
            script_path: Seq::empty(),
            output_path: Seq::empty(),
        }
    }

    /// What the job asks for at its stage. The helper is run as
    /// `node <script> <input> <config> <output>`.
    pub open spec fn request(self) -> RequestView {
        match self.stage {
            Stage::ProbingInput => RequestView::ProbePath { path: self.input_path },
            Stage::LocatingResources => RequestView::LocateResources,
            Stage::ProbingScript => RequestView::ProbePath { path: self.script_path },
            Stage::LocatingScratch => RequestView::LocateScratch,
            Stage::Running => RequestView::Launch {
                program: "node"@,
                arguments: seq![self.script_path, self.input_path, self.config, self.output_path],
            },
        }
    }

    /// Where the job stands after `reply`.
    ///
    /// An answer to the pending request either ends the job or moves it to
    /// the next stage. Any other reply leaves the job as it is, with its
    /// request still pending.
    pub open spec fn step(self, reply: ReplyView) -> StepView {
        match (self.stage, reply) {
            (Stage::ProbingInput, ReplyView::Probed { exists }) => {
                match validation(exists, self.input_path, self.config) {
                    Ok(_) => StepView::Continue(
                        JobView { stage: Stage::LocatingResources, ..self },
                    ),
                    Err(failure) => StepView::Done(Err(failure)),
                }
            },
            (Stage::LocatingResources, ReplyView::Resources { resolved }) => {
                match resolved {
                    Ok(resources) => StepView::Continue(
                        JobView {
                            stage: Stage::ProbingScript,
                            script_path: script_location(resources),
                            ..self
                        },
                    ),
                    Err(reason) => StepView::Done(
                        Err(FailureView::ResourcesUnavailable { reason }),
                    ),
                }
            },
            (Stage::ProbingScript, ReplyView::Probed { exists }) => {
                if exists {
                    StepView::Continue(JobView { stage: Stage::LocatingScratch, ..self })
                } else {
                    StepView::Done(Err(FailureView::ScriptMissing { path: self.script_path }))
                }
            },
            (Stage::LocatingScratch, ReplyView::Scratch { directory }) => StepView::Continue(
                JobView { stage: Stage::Running, output_path: output_location(directory), ..self },
            ),
            (Stage::Running, ReplyView::Exited { success, stdout, stderr }) => StepView::Done(
                process_outcome(success, stdout, stderr),
            ),
            (Stage::Running, ReplyView::LaunchFailed { reason }) => StepView::Done(
                Err(FailureView::LaunchFailed { reason }),
            ),
            _ => StepView::Continue(self),
        }
    }

    /// Whether the job is one that the request `input_path`, `config` can
    /// have led to: it still holds the request; it is past the first stage
    /// only if the request passed every check; and it knows the script and
    /// output paths from the stage on at which they were made, as the paths
    /// under some resource and temporary directory.
    pub open spec fn follows(self, input_path: Seq<char>, config: Seq<char>) -> bool {
        &&& self.input_path == input_path
        &&& self.config == config
        &&& self.stage !is ProbingInput ==> acceptable(input_path, config)
        &&& if self.stage is ProbingInput || self.stage is LocatingResources {
            self.script_path == Seq::<char>::empty()
        } else {
            exists|resources: Seq<char>| self.script_path == script_location(resources)
        }
        &&& if self.stage is Running {
            exists|scratch: Seq<char>| self.output_path == output_location(scratch)
        } else {
            self.output_path == Seq::<char>::empty()
        }
    }
}

/// Whether the request `input_path`, `config` can have had this outcome.
///
/// A report, and every failure that stems from the surroundings or from the
/// helper, presupposes a request that passed every check. Each failure of a
/// check presupposes that the checks before it passed and that this one did
/// not.
pub open spec fn accounted_for(
    outcome: Result<Seq<char>, FailureView>,
    input_path: Seq<char>,
    config: Seq<char>,
) -> bool {
    match outcome {
        Ok(_) => acceptable(input_path, config),
        Err(FailureView::InputMissing { path }) => path == input_path,
        Err(FailureView::NotGlb) => !is_glb_path(input_path),
        Err(FailureView::InvalidConfig { reason }) => is_glb_path(input_path)
            && json_syntax_error(config) == Some(reason),
        Err(FailureView::ScriptMissing { path }) => acceptable(input_path, config) && exists|
            resources: Seq<char>,
        |
            path == script_location(resources),
        Err(_) => acceptable(input_path, config),
    }
}

impl Job {
    /// Every job follows from the request it holds.
    #[verifier::type_invariant]
    spec fn follows_from_its_request(self) -> bool {
        self@.follows(self@.input_path, self@.config)
    }

    /// Starts a job for the request to optimise the file at `input_path`
    /// with the settings `config`.
    pub fn new(input_path: String, config: String) -> (job: Job)
        ensures
            job@ == JobView::initial(input_path@, config@),
    {
        Job {
            stage: Stage::ProbingInput,
            input_path,
            config,
            script_path: String::new(),
            output_path: String::new(),
        }
    }

    /// What the job is waiting for.
    pub fn stage(&self) -> (stage: Stage)
        ensures
            stage == self@.stage,
    {
        self.stage
    }

    /// What the job asks of its driver now.
    ///
    /// Whatever it asks, the job follows from its request: to launch the
    /// helper it asks only once the request has passed every check.
    pub fn request(&self) -> (request: Request)
        ensures
            request@ == self@.request(),
            self@.follows(self@.input_path, self@.config),
            (request@ is Launch) ==> acceptable(self@.input_path, self@.config),
    {
        proof {
            use_type_invariant(self);
        }
        match self.stage {
            Stage::ProbingInput => Request::ProbePath { path: self.input_path.clone() },
            Stage::LocatingResources => Request::LocateResources,
            Stage::ProbingScript => Request::ProbePath { path: self.script_path.clone() },
            Stage::LocatingScratch => Request::LocateScratch,
            Stage::Running => {
                let mut arguments: Vec<String> = Vec::new();
                arguments.push(self.script_path.clone());
                arguments.push(self.input_path.clone());
                arguments.push(self.config.clone());
                arguments.push(self.output_path.clone());
                assert(arguments.deep_view() =~= seq![
                    self.script_path@,
                    self.input_path@,
                    self.config@,
                    self.output_path@,
                ]);
                Request::Launch { program: String::from_str("node"), arguments }
            },
        }
    }

    /// Hands the job the driver's answer.
    ///
    /// The job goes on as one that follows from its request, or ends in an
    /// outcome that its request accounts for.
    pub fn advance(self, reply: Reply) -> (step: Step)
        ensures
            step@ == self@.step(reply@),
            match step@ {
                StepView::Continue(next) => next.follows(self@.input_path, self@.config),
                StepView::Done(outcome) => accounted_for(
                    outcome,
                    self@.input_path,
                    self@.config,
                ),
            },
    {
        proof {
            use_type_invariant(&self);
        }
        match self.stage {
            Stage::ProbingInput => match reply {
                Reply::Probed { exists } => {
                    match validate(exists, self.input_path.as_str(), self.config.as_str()) {
                        Ok(_) => Step::Continue(Job { stage: Stage::LocatingResources, ..self }),
                        Err(failure) => Step::Done(Err(failure)),
                    }
                },
                _ => Step::Continue(self),
            },
            Stage::LocatingResources => match reply {
                Reply::Resources { resolved } => match resolved {
                    Ok(resources) => {
                        let script_path = locate_script(resources.as_str());
                        Step::Continue(Job { stage: Stage::ProbingScript, script_path, ..self })
                    },
                    Err(reason) => Step::Done(Err(Failure::ResourcesUnavailable { reason })),
                },
                _ => Step::Continue(self),
            },
            Stage::ProbingScript => match reply {
                Reply::Probed { exists } => {
                    if exists {
                        Step::Continue(Job { stage: Stage::LocatingScratch, ..self })
                    } else {
                        Step::Done(Err(Failure::ScriptMissing { path: self.script_path }))
                    }
                },
                _ => Step::Continue(self),
            },
            Stage::LocatingScratch => match reply {
                Reply::Scratch { directory } => {
                    let output_path = locate_output(directory.as_str());
                    Step::Continue(Job { stage: Stage::Running, output_path, ..self })
                },
                _ => Step::Continue(self),
            },
            Stage::Running => match reply {
                Reply::Exited { success, stdout, stderr } => Step::Done(
                    read_exit(success, stdout.as_slice(), stderr.as_slice()),
                ),
                Reply::LaunchFailed { reason } => Step::Done(Err(Failure::LaunchFailed { reason })),
                _ => Step::Continue(self),
            },
        }
    }
}

} // verus!
