//! From what happened to what is reported.
//!
//! Every path through a build ends in one [`CompileResponse`].  This module
//! holds the policy: which text goes where, when an error text is present,
//! and when a binary size is.

use vstd::prelude::*;
use vstd::string::StringExecFns;
use crate::model::{CompileResponse, ResponseView, ProcessOutput, OutputView};

verus! {

/// The steps whose failure ends a build before the toolchain has judged the
/// source.
#[derive(Clone, Copy, Debug, PartialEq, Eq, Structural)]
pub enum Fault {
    /// No workspace directory could be allocated.
    Workspace,
    /// The scaffolding command could not be started.
    Scaffold,
    /// The manifest could not be written.
    ManifestWrite,
    /// The submitted source could not be written.
    SourceWrite,
    /// The build command could not be started.
    Launch,
}

/// The words that introduce the cause of each fault.
pub open spec fn fault_prefix(fault: Fault) -> Seq<char> {
    match fault {
        Fault::Workspace => "Failed to create temp directory: "@,
        Fault::Scaffold => "Failed to initialize cargo project: "@,
        Fault::ManifestWrite => "Failed to write Cargo.toml: "@,
        Fault::SourceWrite => "Failed to write contract code: "@,
        Fault::Launch => "Failed to execute cargo build: "@,
    }
}

/// The description of a fault: its prefix, then the cause as the
/// environment worded it.
pub open spec fn fault_text(fault: Fault, cause: Seq<char>) -> Seq<char> {
    fault_prefix(fault) + cause
}

/// The report of a build that a fault ended: no output, the fault's
/// description as the error, no size.
pub open spec fn fault_report(fault: Fault, cause: Seq<char>) -> ResponseView {
    ResponseView {
        success: false,
        output: Seq::empty(),
        errors: Some(fault_text(fault, cause)),
        wasm_size: None,
    }
}

/// The report of a toolchain run that completed.
///
/// On a failure exit the diagnostics are passed through and no size is
/// reported, whatever the probe found.  On a success exit the diagnostics
/// are present only if there are any, and the size is what the probe found:
/// a missing binary is reported as a success without a size.
pub open spec fn completed_report(out: OutputView, artifact: Option<usize>) -> ResponseView {
    if out.success {
        ResponseView {
            success: true,
            output: out.stdout,
            errors: if out.stderr.len() == 0 {
                None
            } else {
                Some(out.stderr)
            },
            wasm_size: artifact,
        }
    } else {
        ResponseView {
            success: false,
            output: out.stdout,
            errors: Some(out.stderr),
            wasm_size: None,
        }
    }
}

/// How the attempt to run the build command ended.
pub enum Outcome {
    /// The process ran to completion.
    Completed(ProcessOutput),
    /// The process could not be started; the cause, in words.
    NotLaunched(String),
}

/// An outcome over character sequences.
pub ghost enum OutcomeView {
    Completed(OutputView),
    NotLaunched(Seq<char>),
}

impl View for Outcome {
    type V = OutcomeView;

    open spec fn view(&self) -> OutcomeView {
        match self {
            Outcome::Completed(out) => OutcomeView::Completed(out@),
            Outcome::NotLaunched(cause) => OutcomeView::NotLaunched(cause@),
        }
    }
}

/// The report for each outcome of the build command, given what the probe
/// for the binary found.
pub open spec fn interpreted(outcome: OutcomeView, artifact: Option<usize>) -> ResponseView {
    match outcome {
        OutcomeView::Completed(out) => completed_report(out, artifact),
        OutcomeView::NotLaunched(cause) => fault_report(Fault::Launch, cause),
    }
}

impl Fault {
    /// The words that introduce the cause of this fault.
    pub fn prefix(self) -> (text: &'static str)
        ensures
            text@ == fault_prefix(self),
    {
        match self {
            Fault::Workspace => "Failed to create temp directory: ",
            Fault::Scaffold => "Failed to initialize cargo project: ",
            Fault::ManifestWrite => "Failed to write Cargo.toml: ",
            Fault::SourceWrite => "Failed to write contract code: ",
            Fault::Launch => "Failed to execute cargo build: ",
        }
    }

    /// The report of a build that this fault ended.
    pub fn report(self, cause: &str) -> (response: CompileResponse)
        ensures
            response@ == fault_report(self, cause@),
    {
        let text = String::from_str(self.prefix()).concat(cause);
        CompileResponse { success: false, output: String::new(), errors: Some(text), wasm_size: None }
    }
}

/// Reports a toolchain run that completed, given what the probe for the
/// binary found.
pub fn report_completed(out: ProcessOutput, artifact: Option<usize>) -> (response: CompileResponse)
    ensures
        response@ == completed_report(out@, artifact),
{
    let ProcessOutput { success, stdout, stderr } = out;
    if success {
        let errors = if stderr.as_str().is_empty() {
            None
        } else {
            Some(stderr)
        };
        CompileResponse { success: true, output: stdout, errors, wasm_size: artifact }
    } else {
        CompileResponse { success: false, output: stdout, errors: Some(stderr), wasm_size: None }
    }
}

/// Turns the outcome of the build command into the report.
pub fn interpret(outcome: Outcome, artifact: Option<usize>) -> (response: CompileResponse)
    ensures
        response@ == interpreted(outcome@, artifact),
{
    match outcome {
        Outcome::Completed(out) => report_completed(out, artifact),
        Outcome::NotLaunched(cause) => Fault::Launch.report(cause.as_str()),
    }
}

} // verus!
