//! The ways in which an optimisation can fail, and the text of each.

use vstd::prelude::*;
use vstd::string::*;

verus! {

/// Why an optimisation did not produce a report.
#[derive(Debug, PartialEq, Eq)]
pub enum Failure {
    /// Nothing exists at the input path.
    InputMissing { path: String },
    /// The input path does not name a `.glb` file.
    NotGlb,
    /// The configuration is not well-formed JSON; `reason` is the parser's message.
    InvalidConfig { reason: String },
    /// The host could not tell where the application's resources are.
    ResourcesUnavailable { reason: String },
    /// The resources are there, the helper script is not.
    ScriptMissing { path: String },
    /// The interpreter could not be started.
    LaunchFailed { reason: String },
    /// The helper script ran and reported failure; `diagnostics` is what it
    /// wrote to standard error.
    ScriptFailed { diagnostics: String },
}

/// A [`Failure`] as a mathematical value.
pub enum FailureView {
    InputMissing { path: Seq<char> },
    NotGlb,
    InvalidConfig { reason: Seq<char> },
    ResourcesUnavailable { reason: Seq<char> },
    ScriptMissing { path: Seq<char> },
    LaunchFailed { reason: Seq<char> },
    ScriptFailed { diagnostics: Seq<char> },
}

impl View for Failure {
    type V = FailureView;

    open spec fn view(&self) -> FailureView {
        match self {
            Failure::InputMissing { path } => FailureView::InputMissing { path: path@ },
            Failure::NotGlb => FailureView::NotGlb,
            Failure::InvalidConfig { reason } => FailureView::InvalidConfig { reason: reason@ },
            Failure::ResourcesUnavailable { reason } => FailureView::ResourcesUnavailable {
                reason: reason@,
            },
            Failure::ScriptMissing { path } => FailureView::ScriptMissing { path: path@ },
            Failure::LaunchFailed { reason } => FailureView::LaunchFailed { reason: reason@ },
            Failure::ScriptFailed { diagnostics } => FailureView::ScriptFailed {
                diagnostics: diagnostics@,
            },
        }
    }
}

/// A verdict as a mathematical value.
pub open spec fn verdict_view(verdict: Result<(), Failure>) -> Result<(), FailureView> {
    match verdict {
        Ok(_) => Ok(()),
        Err(failure) => Err(failure@),
    }
}

/// The outcome of an optimisation as a mathematical value: the report's
/// text, or the failure.
pub open spec fn outcome_view(outcome: Result<String, Failure>) -> Result<Seq<char>, FailureView> {
    match outcome {
        Ok(report) => Ok(report@),
        Err(failure) => Err(failure@),
    }
}

impl FailureView {
    /// The text shown to the user for this failure.
    pub open spec fn message(self) -> Seq<char> {
        match self {
            FailureView::InputMissing { path } => "Input file does not exist: "@ + path,
            FailureView::NotGlb => "Input file must have a .glb extension"@,
            FailureView::InvalidConfig { reason } => "Invalid config JSON: "@ + reason,
            FailureView::ResourcesUnavailable { reason } => "Failed to get resource dir: "@
                + reason,
            FailureView::ScriptMissing { path } => "Optimization script not found at: "@ + path,
            FailureView::LaunchFailed { reason } => "Failed to run node: "@ + reason
                + "\nMake sure Node.js is installed and available in PATH."@,
            FailureView::ScriptFailed { diagnostics } => "Optimization script failed:\n"@
                + diagnostics,
        }
    }
}

impl Failure {
    /// The text shown to the user for this failure.
    pub fn message(&self) -> (text: String)
        ensures
            text@ == self@.message(),
    {
        match self {
            Failure::InputMissing { path } => {
                String::from_str("Input file does not exist: ").concat(path.as_str())
            },
            Failure::NotGlb => String::from_str("Input file must have a .glb extension"),
            Failure::InvalidConfig { reason } => {
                String::from_str("Invalid config JSON: ").concat(reason.as_str())
            },
            Failure::ResourcesUnavailable { reason } => {
                String::from_str("Failed to get resource dir: ").concat(reason.as_str())
            },
            Failure::ScriptMissing { path } => {
                String::from_str("Optimization script not found at: ").concat(path.as_str())
            },
            Failure::LaunchFailed { reason } => {
                String::from_str("Failed to run node: ").concat(reason.as_str()).concat(
                    "\nMake sure Node.js is installed and available in PATH.",
                )
            },
            Failure::ScriptFailed { diagnostics } => {
                String::from_str("Optimization script failed:\n").concat(diagnostics.as_str())
            },
        }
    }
}

/// The first characters of a message are those of its fixed opening, which
/// differs from one kind of failure to the next.
proof fn lemma_message_opening(f: FailureView)
    ensures
        f is InputMissing ==> f.message().len() >= 27 && f.message()[0] == 'I' && f.message()[2]
            == 'p' && f.message()[11] == 'd',
        f is NotGlb ==> f.message().len() == 37 && f.message()[0] == 'I' && f.message()[2] == 'p'
            && f.message()[11] == 'm',
        f is InvalidConfig ==> f.message().len() >= 21 && f.message()[0] == 'I' && f.message()[2]
            == 'v',
        f is ResourcesUnavailable ==> f.message().len() >= 28 && f.message()[0] == 'F'
            && f.message()[10] == 'g',
        f is ScriptMissing ==> f.message().len() >= 34 && f.message()[0] == 'O'
            && f.message()[20] == 'n',
        f is LaunchFailed ==> f.message().len() >= 20 && f.message()[0] == 'F' && f.message()[10]
            == 'r',
        f is ScriptFailed ==> f.message().len() >= 28 && f.message()[0] == 'O' && f.message()[20]
            == 'f',
{
    reveal_strlit("Input file does not exist: ");
    reveal_strlit("Input file must have a .glb extension");
    reveal_strlit("Invalid config JSON: ");
    reveal_strlit("Failed to get resource dir: ");
    reveal_strlit("Optimization script not found at: ");
    reveal_strlit("Failed to run node: ");
    reveal_strlit("Optimization script failed:\n");
}

/// Taking the same opening off two equal texts leaves equal texts.
proof fn lemma_same_opening(opening: Seq<char>, x: Seq<char>, y: Seq<char>)
    requires
        opening + x == opening + y,
    ensures
        x == y,
{
    assert(x =~= (opening + x).subrange(opening.len() as int, (opening + x).len() as int));
    assert(y =~= (opening + y).subrange(opening.len() as int, (opening + y).len() as int));
}

/// Taking the same ending off two equal texts leaves equal texts.
proof fn lemma_same_ending(x: Seq<char>, y: Seq<char>, ending: Seq<char>)
    requires
        x + ending == y + ending,
    ensures
        x == y,
{
    assert((x + ending).len() == (y + ending).len());
    assert(x =~= (x + ending).subrange(0, x.len() as int));
    assert(y =~= (y + ending).subrange(0, y.len() as int));
}

/// The message tells the failure: two failures with the same message are the
/// same failure, of the same kind and with the same detail. In particular no
/// message of one kind can be taken for a message of another.
pub proof fn lemma_message_tells_failure(a: FailureView, b: FailureView)
    requires
        a.message() == b.message(),
    ensures
        a == b,
{
    lemma_message_opening(a);
    lemma_message_opening(b);
    match (a, b) {
        (FailureView::InputMissing { path: x }, FailureView::InputMissing { path: y }) => {
            lemma_same_opening("Input file does not exist: "@, x, y);
        },
        (FailureView::NotGlb, FailureView::NotGlb) => {},
        (FailureView::InvalidConfig { reason: x }, FailureView::InvalidConfig { reason: y }) => {
            lemma_same_opening("Invalid config JSON: "@, x, y);
        },
        (
            FailureView::ResourcesUnavailable { reason: x },
            FailureView::ResourcesUnavailable { reason: y },
        ) => {
            lemma_same_opening("Failed to get resource dir: "@, x, y);
        },
        (FailureView::ScriptMissing { path: x }, FailureView::ScriptMissing { path: y }) => {
            lemma_same_opening("Optimization script not found at: "@, x, y);
        },
        (FailureView::LaunchFailed { reason: x }, FailureView::LaunchFailed { reason: y }) => {
            let hint = "\nMake sure Node.js is installed and available in PATH."@;
            assert("Failed to run node: "@ + x + hint =~= "Failed to run node: "@ + (x + hint));
            assert("Failed to run node: "@ + y + hint =~= "Failed to run node: "@ + (y + hint));
            lemma_same_opening("Failed to run node: "@, x + hint, y + hint);
            lemma_same_ending(x, y, hint);
        },
        (
            FailureView::ScriptFailed { diagnostics: x },
            FailureView::ScriptFailed { diagnostics: y },
        ) => {
            lemma_same_opening("Optimization script failed:\n"@, x, y);
        },
        _ => {},
    }
}

} // verus!
