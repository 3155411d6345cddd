//! The records exchanged with callers, and their mathematical views.

use vstd::prelude::*;

verus! {

/// What a caller submits: source text and the name of the project to build.
///
/// Neither field is validated.  A name the toolchain cannot accept makes the
/// build fail, which is reported like any other failure.
pub struct CompileRequest {
    pub code: String,
    pub contract_name: String,
}

/// A request as a pair of character sequences.
pub ghost struct RequestView {
    pub code: Seq<char>,
    pub contract_name: Seq<char>,
}

impl View for CompileRequest {
    type V = RequestView;

    open spec fn view(&self) -> RequestView {
        RequestView { code: self.code@, contract_name: self.contract_name@ }
    }
}

/// The normalized result of one build.
pub struct CompileResponse {
    pub success: bool,
    pub output: String,
    pub errors: Option<String>,
    pub wasm_size: Option<usize>,
}

/// A result over character sequences.
pub ghost struct ResponseView {
    pub success: bool,
    pub output: Seq<char>,
    pub errors: Option<Seq<char>>,
    pub wasm_size: Option<usize>,
}

/// The view of an optional string.
pub open spec fn text_of(s: Option<String>) -> Option<Seq<char>> {
    match s {
        Some(t) => Some(t@),
        None => None,
    }
}

impl View for CompileResponse {
    type V = ResponseView;

    open spec fn view(&self) -> ResponseView {
        ResponseView {
            success: self.success,
            output: self.output@,
            errors: text_of(self.errors),
            wasm_size: self.wasm_size,
        }
    }
}

/// What a subprocess that ran to completion left behind.
pub struct ProcessOutput {
    /// Whether the exit status reported success.
    pub success: bool,
    /// Everything written to standard output.
    pub stdout: String,
    /// Everything written to standard error.
    pub stderr: String,
}

/// A finished subprocess over character sequences.
pub ghost struct OutputView {
    pub success: bool,
    pub stdout: Seq<char>,
    pub stderr: Seq<char>,
}

impl View for ProcessOutput {
    type V = OutputView;

    open spec fn view(&self) -> OutputView {
        OutputView { success: self.success, stdout: self.stdout@, stderr: self.stderr@ }
    }
}

/// One entry of the catalog of example contracts.
pub struct ContractTemplate {
    pub name: String,
    pub description: String,
    pub code: String,
}

/// A catalog entry over character sequences.
pub ghost struct TemplateView {
    pub name: Seq<char>,
    pub description: Seq<char>,
    pub code: Seq<char>,
}

impl View for ContractTemplate {
    type V = TemplateView;

    open spec fn view(&self) -> TemplateView {
        TemplateView { name: self.name@, description: self.description@, code: self.code@ }
    }
}

/// The answer of the liveness probe.
pub struct HealthResponse {
    pub status: String,
    pub service: String,
}

/// A liveness answer over character sequences.
pub ghost struct HealthView {
    pub status: Seq<char>,
    pub service: Seq<char>,
}

impl View for HealthResponse {
    type V = HealthView;

    open spec fn view(&self) -> HealthView {
        HealthView { status: self.status@, service: self.service@ }
    }
}

/// The elementwise view of a list of strings.
pub open spec fn texts_of(v: Seq<String>) -> Seq<Seq<char>> {
    Seq::new(v.len(), |i: int| v[i]@)
}

} // verus!
