//! What holds of every build, stated over whole runs.
//!
//! A run is a build together with the events reported to it, oldest first.
//! The proofs below speak of [`step`], the function that
//! [`Pipeline::advance`](crate::pipeline::Pipeline::advance) computes, so
//! they hold of every caller, however it performs the actions.

use vstd::prelude::*;
use crate::ident::request_id_len;
use crate::interpret::{Fault, OutcomeView, fault_report, interpreted};
use crate::manifest::{manifest_path, source_path};
use crate::model::{OutputView, RequestView, ResponseView};
use crate::pipeline::{
    ActionView, EventView, PhaseView, PipelineView, action, coherent, fits, run, sound, started,
    step,
};

verus! {

/// How far a build has come: the number of its phase in the fixed sequence.
pub open spec fn rank(phase: PhaseView) -> nat {
    match phase {
        PhaseView::Provision => 0,
        PhaseView::Scaffold => 1,
        PhaseView::CleanCache => 2,
        PhaseView::WriteManifest => 3,
        PhaseView::WriteSource => 4,
        PhaseView::AddTarget => 5,
        PhaseView::Build => 6,
        PhaseView::Probe(_) => 7,
        PhaseView::Teardown(_) => 8,
        PhaseView::Finished(_) => 9,
    }
}

/// The report that a build has settled on, if it has.
pub open spec fn settled(p: PipelineView) -> Option<ResponseView> {
    match p.phase {
        PhaseView::Teardown(response) => Some(response),
        PhaseView::Finished(response) => Some(response),
        _ => None,
    }
}

/// A run grows by one event as the build takes one step.
pub proof fn run_one_more(p: PipelineView, events: Seq<EventView>, event: EventView)
    ensures
        run(p, Seq::empty()) == p,
        run(p, events.push(event)) == step(run(p, events), event),
{
    assert(events.push(event).drop_last() =~= events);
}

/// A step never changes the request or the identifier, and never breaks
/// soundness.
pub proof fn step_keeps_sound(p: PipelineView, event: EventView)
    requires
        sound(p),
    ensures
        sound(step(p, event)),
        step(p, event).request == p.request,
        step(p, event).id == p.id,
{
}

/// Soundness, the request and the identifier survive every run.
pub proof fn run_keeps_sound(p: PipelineView, events: Seq<EventView>)
    requires
        sound(p),
    ensures
        sound(run(p, events)),
        run(p, events).request == p.request,
        run(p, events).id == p.id,
    decreases events.len(),
{
    if events.len() > 0 {
        run_keeps_sound(p, events.drop_last());
        step_keeps_sound(run(p, events.drop_last()), events.last());
    }
}

/// No workspace outlives its build: whatever was reported, in whatever
/// order, a build that has reached its end holds no workspace, a build
/// that is about to respond holds none, and a build that holds one has its
/// end still before it.
pub proof fn no_workspace_outlives_build(
    request: RequestView,
    id: Seq<char>,
    events: Seq<EventView>,
)
    requires
        id.len() == request_id_len(),
    ensures
        run(started(request, id), events).phase is Finished ==> !run(
            started(request, id),
            events,
        ).holds_workspace,
        action(run(started(request, id), events)) is Respond ==> !run(
            started(request, id),
            events,
        ).holds_workspace,
        run(started(request, id), events).holds_workspace ==> rank(
            run(started(request, id), events).phase,
        ) <= 8,
{
    run_keeps_sound(started(request, id), events);
}

/// A workspace changes hands in two places only.  A build comes to hold one
/// by a successful answer to its request for one, and gives it up by an
/// answer to its request for removal: no other step takes or drops it.
pub proof fn workspace_is_taken_and_given_up_once(p: PipelineView, event: EventView)
    requires
        sound(p),
    ensures
        !p.holds_workspace && step(p, event).holds_workspace ==> action(p) is CreateWorkspace
            && !(event is Failed) && fits(p.phase, event),
        p.holds_workspace && !step(p, event).holds_workspace ==> action(p) is RemoveWorkspace
            && fits(p.phase, event) && step(p, event).phase is Finished,
        p.phase is Finished ==> step(p, event) == p,
{
}

/// Every event that fits moves the build one or more phases forward, never
/// back, and a settled report is never revised.
pub proof fn fitting_event_makes_progress(p: PipelineView, event: EventView)
    requires
        fits(p.phase, event),
    ensures
        rank(step(p, event).phase) > rank(p.phase),
        settled(p) is Some ==> settled(step(p, event)) == settled(p),
{
}

/// An event that does not fit changes nothing.
pub proof fn unfit_event_is_ignored(p: PipelineView, event: EventView)
    requires
        !fits(p.phase, event),
    ensures
        step(p, event) == p,
{
}

/// Every build converges on a report: no build takes more than nine
/// fitting events, and one that has taken as many as its phase leaves room
/// for has reached its end.
pub proof fn build_ends_within_nine_events(p: PipelineView, events: Seq<EventView>)
    requires
        forall|i: int|
            0 <= i < events.len() ==> fits(
                #[trigger] run(p, events.take(i)).phase,
                events[i],
            ),
    ensures
        rank(run(p, events).phase) >= rank(p.phase) + events.len(),
        events.len() <= 9,
        events.len() + rank(p.phase) == 9 ==> run(p, events).phase is Finished,
    decreases events.len(),
{
    if events.len() > 0 {
        let head = events.drop_last();
        assert forall|i: int| 0 <= i < head.len() implies fits(
            #[trigger] run(p, head.take(i)).phase,
            head[i],
        ) by {
            assert(head.take(i) =~= events.take(i));
        }
        build_ends_within_nine_events(p, head);
        assert(events.take(events.len() - 1) =~= head);
        fitting_event_makes_progress(run(p, head), events.last());
    }
}

/// Running through two lists of events in turn is running through both.
pub proof fn run_in_two_parts(p: PipelineView, first: Seq<EventView>, second: Seq<EventView>)
    ensures
        run(p, first + second) == run(run(p, first), second),
    decreases second.len(),
{
    if second.len() == 0 {
        assert(first + second =~= first);
    } else {
        assert((first + second).drop_last() =~= first + second.drop_last());
        run_in_two_parts(p, first, second.drop_last());
    }
}

/// Provisioning reaches the build if the workspace could be allocated, the
/// scaffolding command could be started and both writes went through.
/// Neither the exit status of the scaffolding nor anything that clearing
/// the cache or preparing the target reports stands in the way.
pub proof fn provisioning_reaches_build(
    request: RequestView,
    id: Seq<char>,
    scaffold: OutputView,
    clean: EventView,
    target: EventView,
)
    requires
        clean is Exited || clean is Failed,
        target is Exited || target is Failed,
    ensures
        run(
            started(request, id),
            seq![
                EventView::Done,
                EventView::Exited(scaffold),
                clean,
                EventView::Done,
                EventView::Done,
                target,
            ],
        ) == (PipelineView { request, id, phase: PhaseView::Build, holds_workspace: true }),
{
    let p = started(request, id);
    let e0 = Seq::<EventView>::empty();
    let e1 = e0.push(EventView::Done);
    let e2 = e1.push(EventView::Exited(scaffold));
    let e3 = e2.push(clean);
    let e4 = e3.push(EventView::Done);
    let e5 = e4.push(EventView::Done);
    run_one_more(p, e0, EventView::Done);
    run_one_more(p, e1, EventView::Exited(scaffold));
    run_one_more(p, e2, clean);
    run_one_more(p, e3, EventView::Done);
    run_one_more(p, e4, EventView::Done);
    run_one_more(p, e5, target);
    assert(seq![
        EventView::Done,
        EventView::Exited(scaffold),
        clean,
        EventView::Done,
        EventView::Done,
        target,
    ] =~= e5.push(target));
}

/// A workspace that cannot be allocated ends the build at once: the report
/// names the cause, nothing was run, and there is nothing to remove.
pub proof fn failed_allocation_ends_build(request: RequestView, id: Seq<char>, cause: Seq<char>)
    ensures
        step(started(request, id), EventView::Failed(cause)).phase == PhaseView::Finished(
            fault_report(Fault::Workspace, cause),
        ),
        !step(started(request, id), EventView::Failed(cause)).holds_workspace,
{
}

/// A build whose toolchain exits with success reports success, the
/// toolchain's output, the size that the probe measured (none if the binary
/// is missing), and an error text exactly if the toolchain wrote
/// diagnostics.
pub proof fn successful_build_reports_size(
    p: PipelineView,
    out: OutputView,
    size: Option<usize>,
    removal: EventView,
)
    requires
        p.phase is Build,
        out.success,
        removal is Done || removal is Failed,
    ensures
        run(p, seq![EventView::Exited(out), EventView::Artifact(size), removal]).phase
            == PhaseView::Finished(
            ResponseView {
                success: true,
                output: out.stdout,
                errors: if out.stderr.len() == 0 {
                    None
                } else {
                    Some(out.stderr)
                },
                wasm_size: size,
            },
        ),
{
    let none = Seq::<EventView>::empty();
    let one = none.push(EventView::Exited(out));
    let two = one.push(EventView::Artifact(size));
    run_one_more(p, none, EventView::Exited(out));
    run_one_more(p, one, EventView::Artifact(size));
    run_one_more(p, two, removal);
    assert(seq![EventView::Exited(out), EventView::Artifact(size), removal] =~= two.push(removal));
}

/// A whole build, from the request to the response, whose toolchain exits
/// with success: nine answers lead to the end, and the report is the one
/// that `successful_build_reports_size` describes.
pub proof fn whole_successful_build(
    request: RequestView,
    id: Seq<char>,
    scaffold: OutputView,
    clean: EventView,
    target: EventView,
    out: OutputView,
    size: Option<usize>,
    removal: EventView,
)
    requires
        clean is Exited || clean is Failed,
        target is Exited || target is Failed,
        out.success,
        removal is Done || removal is Failed,
    ensures
        run(
            started(request, id),
            seq![
                EventView::Done,
                EventView::Exited(scaffold),
                clean,
                EventView::Done,
                EventView::Done,
                target,
            ] + seq![EventView::Exited(out), EventView::Artifact(size), removal],
        ) == (PipelineView {
            request,
            id,
            phase: PhaseView::Finished(
                ResponseView {
                    success: true,
                    output: out.stdout,
                    errors: if out.stderr.len() == 0 {
                        None
                    } else {
                        Some(out.stderr)
                    },
                    wasm_size: size,
                },
            ),
            holds_workspace: false,
        }),
{
    let provisioning = seq![
        EventView::Done,
        EventView::Exited(scaffold),
        clean,
        EventView::Done,
        EventView::Done,
        target,
    ];
    let building = seq![EventView::Exited(out), EventView::Artifact(size), removal];
    let ready = PipelineView { request, id, phase: PhaseView::Build, holds_workspace: true };
    provisioning_reaches_build(request, id, scaffold, clean, target);
    run_in_two_parts(started(request, id), provisioning, building);
    successful_build_reports_size(ready, out, size, removal);
    let none = Seq::<EventView>::empty();
    let one = none.push(EventView::Exited(out));
    let two = one.push(EventView::Artifact(size));
    run_one_more(ready, none, EventView::Exited(out));
    run_one_more(ready, one, EventView::Artifact(size));
    run_one_more(ready, two, removal);
    assert(building =~= two.push(removal));
}

/// A build whose toolchain exits with a failure reports the failure, the
/// toolchain's output and diagnostics as they came, and no size.  The
/// binary is not even looked for.
pub proof fn failed_build_reports_diagnostics(p: PipelineView, out: OutputView, removal: EventView)
    requires
        p.phase is Build,
        !out.success,
        removal is Done || removal is Failed,
    ensures
        action(step(p, EventView::Exited(out))) is RemoveWorkspace,
        run(p, seq![EventView::Exited(out), removal]).phase == PhaseView::Finished(
            ResponseView {
                success: false,
                output: out.stdout,
                errors: Some(out.stderr),
                wasm_size: None,
            },
        ),
{
    let none = Seq::<EventView>::empty();
    let one = none.push(EventView::Exited(out));
    run_one_more(p, none, EventView::Exited(out));
    run_one_more(p, one, removal);
    assert(seq![EventView::Exited(out), removal] =~= one.push(removal));
}

/// Whether two events agree in everything but text: the same kind, the
/// same exit status, the same measured size.
pub open spec fn same_but_text(a: EventView, b: EventView) -> bool {
    match (a, b) {
        (EventView::Done, EventView::Done) => true,
        (EventView::Failed(_), EventView::Failed(_)) => true,
        (EventView::Exited(x), EventView::Exited(y)) => x.success == y.success,
        (EventView::Artifact(m), EventView::Artifact(n)) => m == n,
        _ => false,
    }
}

/// Whether two builds stand at the same point and agree in what they report: the
/// same phase, and where a report is settled the same `success` and the
/// same size.
pub open spec fn same_standing(p: PipelineView, q: PipelineView) -> bool {
    &&& rank(p.phase) == rank(q.phase)
    &&& p.holds_workspace == q.holds_workspace
    &&& match (p.phase, q.phase) {
        (PhaseView::Probe(x), PhaseView::Probe(y)) => x.success == y.success,
        _ => true,
    }
    &&& match (settled(p), settled(q)) {
        (Some(r), Some(s)) => r.success == s.success && r.wasm_size == s.wasm_size,
        (None, None) => true,
        _ => false,
    }
}

/// One step keeps two builds in agreement if the events agree in
/// everything but text.
pub proof fn step_keeps_standing(p: PipelineView, q: PipelineView, a: EventView, b: EventView)
    requires
        same_standing(p, q),
        same_but_text(a, b),
    ensures
        same_standing(step(p, a), step(q, b)),
{
}

/// Submitting twice gives the same status and size: two builds, in whatever text
/// their requests and the toolchain's output differ, end with equal
/// `success` and equal size if the events reported to them agree in kind,
/// exit status and measured size.
pub proof fn status_and_size_ignore_text(
    p: PipelineView,
    q: PipelineView,
    first: Seq<EventView>,
    second: Seq<EventView>,
)
    requires
        same_standing(p, q),
        first.len() == second.len(),
        forall|i: int| 0 <= i < first.len() ==> same_but_text(#[trigger] first[i], second[i]),
    ensures
        same_standing(run(p, first), run(q, second)),
    decreases first.len(),
{
    if first.len() > 0 {
        status_and_size_ignore_text(p, q, first.drop_last(), second.drop_last());
        step_keeps_standing(
            run(p, first.drop_last()),
            run(q, second.drop_last()),
            first.last(),
            second.last(),
        );
    }
}

/// A build writes to two places only, both fixed and both inside its own
/// workspace: the manifest and the source file.  What it writes there is
/// its own request's text.
pub proof fn writes_stay_in_workspace(p: PipelineView)
    ensures
        action(p) is WriteFile ==> (action(p)->WriteFile_path == manifest_path() || action(
            p,
        )->WriteFile_path == source_path()),
        p.phase is WriteSource ==> action(p) == (ActionView::WriteFile {
            path: source_path(),
            contents: p.request.code,
        }),
        manifest_path().len() == 1,
        source_path().len() == 2,
{
}

/// The report of a completed toolchain run is coherent, and so is that of
/// one that could not be started.
pub proof fn interpreted_is_coherent(outcome: OutcomeView, artifact: Option<usize>)
    ensures
        coherent(interpreted(outcome, artifact)),
        interpreted(outcome, artifact).wasm_size is Some ==> interpreted(outcome, artifact).success,
{
}

} // verus!
