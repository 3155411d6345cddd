//! One build as a state machine.
//!
//! A [`Pipeline`] never touches the outside world.  It names the next
//! [`Action`]; the caller carries it out and reports an [`Event`]; the
//! pipeline moves on.  The sequence is fixed: provision, scaffold, clear the
//! cache, write the manifest, write the source, prepare the target, build,
//! probe for the binary, tear down, respond.

use vstd::prelude::*;
use crate::ident::{new_request_id, request_id_len};
use crate::interpret::{Fault, Outcome, OutcomeView, fault_report, interpreted, interpret};
use crate::manifest::{
    Invocation, InvocationView, artifact_location, artifact_path, build_command,
    build_invocation, clean_command, clean_invocation, manifest_for, manifest_location,
    manifest_path, manifest_text, scaffold_command, scaffold_invocation, source_location,
    source_path, target_command, target_invocation,
};
use crate::model::{
    CompileRequest, CompileResponse, OutputView, ProcessOutput, RequestView, ResponseView,
    texts_of,
};

verus! {

/// What the caller reports after carrying out an action.
pub enum Event {
    /// The action was carried out and there is nothing to add.
    Done,
    /// The action could not be carried out; the cause, in words.
    Failed(String),
    /// A subprocess was started and ran to completion.
    Exited(ProcessOutput),
    /// The probe for the binary: its size in bytes if it is there.
    Artifact(Option<usize>),
}

/// An event over character sequences.
pub ghost enum EventView {
    Done,
    Failed(Seq<char>),
    Exited(OutputView),
    Artifact(Option<usize>),
}

impl View for Event {
    type V = EventView;

    open spec fn view(&self) -> EventView {
        match self {
            Event::Done => EventView::Done,
            Event::Failed(cause) => EventView::Failed(cause@),
            Event::Exited(out) => EventView::Exited(out@),
            Event::Artifact(size) => EventView::Artifact(*size),
        }
    }
}

/// What the pipeline asks its caller to do next.
pub enum Action {
    /// Allocate a fresh, empty, uniquely named directory.
    CreateWorkspace,
    /// Run a subprocess to completion, capturing both output streams.
    Run(Invocation),
    /// Write a file inside the workspace; `path` is relative to its root.
    WriteFile { path: Vec<String>, contents: String },
    /// Look for a file inside the workspace and measure it.
    ProbeArtifact { path: Vec<String> },
    /// Remove the workspace and everything under it.
    RemoveWorkspace,
    /// Hand the report to whoever asked for the build.
    Respond(CompileResponse),
}

/// An action over character sequences.
pub ghost enum ActionView {
    CreateWorkspace,
    Run(InvocationView),
    WriteFile { path: Seq<Seq<char>>, contents: Seq<char> },
    ProbeArtifact { path: Seq<Seq<char>> },
    RemoveWorkspace,
    Respond(ResponseView),
}

impl View for Action {
    type V = ActionView;

    open spec fn view(&self) -> ActionView {
        match self {
            Action::CreateWorkspace => ActionView::CreateWorkspace,
            Action::Run(inv) => ActionView::Run(inv@),
            Action::WriteFile { path, contents } => ActionView::WriteFile {
                path: texts_of(path@),
                contents: contents@,
            },
            Action::ProbeArtifact { path } => ActionView::ProbeArtifact { path: texts_of(path@) },
            Action::RemoveWorkspace => ActionView::RemoveWorkspace,
            Action::Respond(response) => ActionView::Respond(response@),
        }
    }
}

/// Where a build stands.
pub enum Phase {
    Provision,
    Scaffold,
    CleanCache,
    WriteManifest,
    WriteSource,
    AddTarget,
    Build,
    /// The build succeeded; its output waits for the probe.
    Probe(ProcessOutput),
    /// The report is settled; the workspace is still there.
    Teardown(CompileResponse),
    /// The report is settled and no workspace is held.
    Finished(CompileResponse),
}

/// A phase over character sequences.
pub ghost enum PhaseView {
    Provision,
    Scaffold,
    CleanCache,
    WriteManifest,
    WriteSource,
    AddTarget,
    Build,
    Probe(OutputView),
    Teardown(ResponseView),
    Finished(ResponseView),
}

impl View for Phase {
    type V = PhaseView;

    open spec fn view(&self) -> PhaseView {
        match self {
            Phase::Provision => PhaseView::Provision,
            Phase::Scaffold => PhaseView::Scaffold,
            Phase::CleanCache => PhaseView::CleanCache,
            Phase::WriteManifest => PhaseView::WriteManifest,
            Phase::WriteSource => PhaseView::WriteSource,
            Phase::AddTarget => PhaseView::AddTarget,
            Phase::Build => PhaseView::Build,
            Phase::Probe(out) => PhaseView::Probe(out@),
            Phase::Teardown(response) => PhaseView::Teardown(response@),
            Phase::Finished(response) => PhaseView::Finished(response@),
        }
    }
}

/// The state of one build.
pub struct Pipeline {
    request: CompileRequest,
    id: String,
    phase: Phase,
    holds_workspace: bool,
}

/// The state of one build over character sequences.
pub ghost struct PipelineView {
    pub request: RequestView,
    pub id: Seq<char>,
    pub phase: PhaseView,
    /// Whether a workspace was allocated and has not been given up yet.
    pub holds_workspace: bool,
}

impl View for Pipeline {
    type V = PipelineView;

    closed spec fn view(&self) -> PipelineView {
        PipelineView {
            request: self.request@,
            id: self.id@,
            phase: self.phase@,
            holds_workspace: self.holds_workspace,
        }
    }
}

/// Whether a report hangs together: a failure carries an error text and no
/// size; a success carries an error text only if there is something in it.
pub open spec fn coherent(response: ResponseView) -> bool {
    if response.success {
        response.errors is Some ==> response.errors->0.len() > 0
    } else {
        response.errors is Some && response.wasm_size is None
    }
}

/// What holds of every build, wherever it stands.
///
/// A workspace is held exactly between a successful allocation and the end
/// of teardown.  Only a build that exited with success waits for a probe,
/// and a settled report is coherent.
pub open spec fn sound(p: PipelineView) -> bool {
    &&& p.holds_workspace == !(p.phase is Provision || p.phase is Finished)
    &&& p.id.len() == request_id_len()
    &&& match p.phase {
        PhaseView::Probe(out) => out.success,
        PhaseView::Teardown(response) => coherent(response),
        PhaseView::Finished(response) => coherent(response),
        _ => true,
    }
}

/// A build that has not done anything yet.
pub open spec fn started(request: RequestView, id: Seq<char>) -> PipelineView {
    PipelineView { request, id, phase: PhaseView::Provision, holds_workspace: false }
}

/// Whether `event` is an answer to the action of `phase`.
///
/// Allocation, writes and removal end in `Done` or `Failed`; a subprocess
/// ends in `Exited` or, if it could not be started, `Failed`; the probe ends
/// in `Artifact`.  A finished build takes no event.
pub open spec fn fits(phase: PhaseView, event: EventView) -> bool {
    match phase {
        PhaseView::Provision | PhaseView::WriteManifest | PhaseView::WriteSource
        | PhaseView::Teardown(_) => event is Done || event is Failed,
        PhaseView::Scaffold | PhaseView::CleanCache | PhaseView::AddTarget
        | PhaseView::Build => event is Exited || event is Failed,
        PhaseView::Probe(_) => event is Artifact,
        PhaseView::Finished(_) => false,
    }
}

/// The same build in another phase.
pub open spec fn moved(p: PipelineView, phase: PhaseView) -> PipelineView {
    PipelineView { phase, ..p }
}

/// Where a step that must not fail leads: on `Failed` to teardown with the
/// fault's report, otherwise to `next`.
pub open spec fn fatal_or(p: PipelineView, event: EventView, fault: Fault, next: PhaseView)
    -> PipelineView {
    match event {
        EventView::Failed(cause) => moved(p, PhaseView::Teardown(fault_report(fault, cause))),
        _ => moved(p, next),
    }
}

/// The transition function.  An event that does not fit leaves the build
/// where it is.
///
/// * Allocation failing ends the build at once: there is nothing to tear
///   down.  Any later fault leads to teardown first.
/// * Scaffolding must start, but its exit status is not looked at.  Clearing
///   the cache and preparing the target are best effort: the build goes on
///   whatever they report.
/// * A build that exits with success is probed for its binary; any other
///   outcome of the build settles the report without a probe.
/// * Teardown leads to the end whether or not removal worked.
pub open spec fn step(p: PipelineView, event: EventView) -> PipelineView {
    if !fits(p.phase, event) {
        p
    } else {
        match p.phase {
            PhaseView::Provision => match event {
                EventView::Failed(cause) => moved(
                    p,
                    PhaseView::Finished(fault_report(Fault::Workspace, cause)),
                ),
                _ => PipelineView { phase: PhaseView::Scaffold, holds_workspace: true, ..p },
            },
            PhaseView::Scaffold => fatal_or(p, event, Fault::Scaffold, PhaseView::CleanCache),
            PhaseView::CleanCache => moved(p, PhaseView::WriteManifest),
            PhaseView::WriteManifest => fatal_or(
                p,
                event,
                Fault::ManifestWrite,
                PhaseView::WriteSource,
            ),
            PhaseView::WriteSource => fatal_or(p, event, Fault::SourceWrite, PhaseView::AddTarget),
            PhaseView::AddTarget => moved(p, PhaseView::Build),
            PhaseView::Build => match event {
                EventView::Exited(out) => if out.success {
                    moved(p, PhaseView::Probe(out))
                } else {
                    moved(p, PhaseView::Teardown(interpreted(OutcomeView::Completed(out), None)))
                },
                EventView::Failed(cause) => moved(
                    p,
                    PhaseView::Teardown(interpreted(OutcomeView::NotLaunched(cause), None)),
                ),
                _ => p,
            },
            PhaseView::Probe(out) => match event {
                EventView::Artifact(size) => moved(
                    p,
                    PhaseView::Teardown(interpreted(OutcomeView::Completed(out), size)),
                ),
                _ => p,
            },
            PhaseView::Teardown(response) => PipelineView {
                phase: PhaseView::Finished(response),
                holds_workspace: false,
                ..p
            },
            PhaseView::Finished(_) => p,
        }
    }
}

/// The build after `events` have been reported to it in order.
pub open spec fn run(p: PipelineView, events: Seq<EventView>) -> PipelineView
    decreases events.len(),
{
    if events.len() == 0 {
        p
    } else {
        step(run(p, events.drop_last()), events.last())
    }
}

/// The elementwise view of a list of events.
pub open spec fn events_of(events: Seq<Event>) -> Seq<EventView> {
    Seq::new(events.len(), |i: int| events[i]@)
}

/// What each phase asks for.
pub open spec fn action(p: PipelineView) -> ActionView {
    match p.phase {
        PhaseView::Provision => ActionView::CreateWorkspace,
        PhaseView::Scaffold => ActionView::Run(scaffold_command(p.request.contract_name)),
        PhaseView::CleanCache => ActionView::Run(clean_command()),
        PhaseView::WriteManifest => ActionView::WriteFile {
            path: manifest_path(),
            contents: manifest_text(p.request.contract_name),
        },
        PhaseView::WriteSource => ActionView::WriteFile {
            path: source_path(),
            contents: p.request.code,
        },
        PhaseView::AddTarget => ActionView::Run(target_command()),
        PhaseView::Build => ActionView::Run(build_command()),
        PhaseView::Probe(_) => ActionView::ProbeArtifact {
            path: artifact_path(p.request.contract_name),
        },
        PhaseView::Teardown(_) => ActionView::RemoveWorkspace,
        PhaseView::Finished(response) => ActionView::Respond(response),
    }
}

/// A copy of a report.
fn copy_response(response: &CompileResponse) -> (copy: CompileResponse)
    ensures
        copy@ == response@,
{
    let errors = match &response.errors {
        Some(text) => Some(text.clone()),
        None => None,
    };
    CompileResponse {
        success: response.success,
        output: response.output.clone(),
        errors,
        wasm_size: response.wasm_size,
    }
}

impl Pipeline {
    #[verifier::type_invariant]
    spec fn inv(self) -> bool {
        sound(self@)
    }

    /// Starts a build for `request` under a fresh identifier.
    pub fn begin(request: CompileRequest) -> (p: Pipeline)
        ensures
            p@ == started(request@, p@.id),
            sound(p@),
    {
        Pipeline { request, id: new_request_id(), phase: Phase::Provision, holds_workspace: false }
    }

    /// The identifier drawn for this build.
    pub fn request_id(&self) -> (id: &str)
        ensures
            id@ == self@.id,
    {
        self.id.as_str()
    }

    /// Whether a workspace was allocated and has not been given up yet.
    pub fn holds_workspace(&self) -> (held: bool)
        ensures
            held == self@.holds_workspace,
    {
        self.holds_workspace
    }

    /// Whether the report is settled and nothing is left to do but respond.
    pub fn is_finished(&self) -> (done: bool)
        ensures
            done == (self@.phase is Finished),
            done ==> !self@.holds_workspace,
    {
        proof {
            use_type_invariant(self);
        }
        match &self.phase {
            Phase::Finished(_) => true,
            _ => false,
        }
    }

    /// Whether `event` answers the action that this build is waiting for.
    pub fn accepts(&self, event: &Event) -> (ok: bool)
        ensures
            ok == fits(self@.phase, event@),
    {
        match &self.phase {
            Phase::Provision | Phase::WriteManifest | Phase::WriteSource | Phase::Teardown(_) => {
                match event {
                    Event::Done => true,
                    Event::Failed(_) => true,
                    _ => false,
                }
            },
            Phase::Scaffold | Phase::CleanCache | Phase::AddTarget | Phase::Build => {
                match event {
                    Event::Exited(_) => true,
                    Event::Failed(_) => true,
                    _ => false,
                }
            },
            Phase::Probe(_) => match event {
                Event::Artifact(_) => true,
                _ => false,
            },
            Phase::Finished(_) => false,
        }
    }

    /// What the caller is to do next.
    pub fn next_action(&self) -> (a: Action)
        ensures
            a@ == action(self@),
            sound(self@),
    {
        proof {
            use_type_invariant(self);
        }
        match &self.phase {
            Phase::Provision => Action::CreateWorkspace,
            Phase::Scaffold => Action::Run(scaffold_invocation(self.request.contract_name.as_str())),
            Phase::CleanCache => Action::Run(clean_invocation()),
            Phase::WriteManifest => Action::WriteFile {
                path: manifest_location(),
                contents: manifest_for(self.request.contract_name.as_str()),
            },
            Phase::WriteSource => Action::WriteFile {
                path: source_location(),
                contents: self.request.code.clone(),
            },
            Phase::AddTarget => Action::Run(target_invocation()),
            Phase::Build => Action::Run(build_invocation()),
            Phase::Probe(_) => Action::ProbeArtifact {
                path: artifact_location(self.request.contract_name.as_str()),
            },
            Phase::Teardown(_) => Action::RemoveWorkspace,
            Phase::Finished(response) => Action::Respond(copy_response(response)),
        }
    }

    /// Takes the caller's answer and moves on.  An event that does not fit
    /// the pending action changes nothing.
    pub fn advance(self, event: Event) -> (next: Pipeline)
        ensures
            next@ == step(self@, event@),
            sound(self@),
            sound(next@),
    {
        proof {
            use_type_invariant(&self);
        }
        if !self.accepts(&event) {
            return self;
        }
        let Pipeline { request, id, phase, holds_workspace } = self;
        match phase {
            Phase::Provision => match event {
                Event::Failed(cause) => Pipeline {
                    request,
                    id,
                    phase: Phase::Finished(Fault::Workspace.report(cause.as_str())),
                    holds_workspace,
                },
                _ => Pipeline { request, id, phase: Phase::Scaffold, holds_workspace: true },
            },
            Phase::Scaffold => Pipeline {
                request,
                id,
                phase: after_fatal_step(event, Fault::Scaffold, Phase::CleanCache),
                holds_workspace,
            },
            Phase::CleanCache => Pipeline { request, id, phase: Phase::WriteManifest, holds_workspace },
            Phase::WriteManifest => Pipeline {
                request,
                id,
                phase: after_fatal_step(event, Fault::ManifestWrite, Phase::WriteSource),
                holds_workspace,
            },
            Phase::WriteSource => Pipeline {
                request,
                id,
                phase: after_fatal_step(event, Fault::SourceWrite, Phase::AddTarget),
                holds_workspace,
            },
            Phase::AddTarget => Pipeline { request, id, phase: Phase::Build, holds_workspace },
            Phase::Build => Pipeline { request, id, phase: after_build(event), holds_workspace },
            Phase::Probe(out) => {
                let size = match event {
                    Event::Artifact(size) => size,
                    _ => None,
                };
                Pipeline {
                    request,
                    id,
                    phase: Phase::Teardown(interpret(Outcome::Completed(out), size)),
                    holds_workspace,
                }
            },
            Phase::Teardown(response) => Pipeline {
                request,
                id,
                phase: Phase::Finished(response),
                holds_workspace: false,
            },
            Phase::Finished(response) => Pipeline {
                request,
                id,
                phase: Phase::Finished(response),
                holds_workspace,
            },
        }
    }

    /// Takes a whole list of answers, oldest first, as `advance` would take
    /// them one by one.
    pub fn replay(self, events: Vec<Event>) -> (end: Pipeline)
        ensures
            end@ == run(self@, events_of(events@)),
            sound(end@),
    {
        let ghost all = events@;
        let mut p = self;
        proof {
            use_type_invariant(&p);
            assert(events_of(all).take(0) =~= Seq::<EventView>::empty());
        }
        for event in it: events
            invariant
                it.seq() == all,
                p@ == run(self@, events_of(all).take(it.index() as int)),
                sound(p@),
        {
            proof {
                let sofar = events_of(all).take(it.index() as int);
                assert(events_of(all).take(it.index() + 1) =~= sofar.push(event@));
                assert(sofar.push(event@).drop_last() =~= sofar);
            }
            p = p.advance(event);
        }
        proof {
            assert(events_of(all).take(all.len() as int) =~= events_of(all));
        }
        p
    }
}

/// The phase after a step that must not fail.
fn after_fatal_step(event: Event, fault: Fault, next: Phase) -> (phase: Phase)
    ensures
        phase@ == (match event@ {
            EventView::Failed(cause) => PhaseView::Teardown(fault_report(fault, cause)),
            _ => next@,
        }),
{
    match event {
        Event::Failed(cause) => Phase::Teardown(fault.report(cause.as_str())),
        _ => next,
    }
}

/// The phase after the build command.
fn after_build(event: Event) -> (phase: Phase)
    requires
        event@ is Exited || event@ is Failed,
    ensures
        phase@ == (match event@ {
            EventView::Exited(out) => if out.success {
                PhaseView::Probe(out)
            } else {
                PhaseView::Teardown(interpreted(OutcomeView::Completed(out), None))
            },
            EventView::Failed(cause) => PhaseView::Teardown(
                interpreted(OutcomeView::NotLaunched(cause), None),
            ),
            _ => PhaseView::Build,
        }),
{
    match event {
        Event::Exited(out) => if out.success {
            Phase::Probe(out)
        } else {
            Phase::Teardown(interpret(Outcome::Completed(out), None))
        },
        Event::Failed(cause) => Phase::Teardown(interpret(Outcome::NotLaunched(cause), None)),
        _ => Phase::Build,
    }
}

} // verus!
