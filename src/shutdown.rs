//! Orderly shutdown: stop taking queries, save the recorder, then exit.
//!
//! The caller runs the effects; [`step`] says which one comes next.
use vstd::prelude::*;

verus! {

#[derive(Clone, Copy, Debug, PartialEq, Eq, Structural)]
pub enum Phase {
    /// Serving queries.
    Running,
    /// Asked to stop; waiting for the server to stop taking queries.
    Draining,
    /// Saving the recorder.
    Flushing,
    /// Done; the process may exit.
    Terminated,
}

#[derive(Clone, Copy, Debug, PartialEq, Eq, Structural)]
pub enum Event {
    /// The process received an interrupt.
    Interrupt,
    /// The server no longer takes queries.
    IntakeStopped,
    /// The recorder was saved.
    Saved,
    /// Saving the recorder failed.
    SaveFailed,
}

#[derive(Clone, Copy, Debug, PartialEq, Eq, Structural)]
pub enum Directive {
    /// Nothing to do.
    Wait,
    /// Stop taking queries.
    StopIntake,
    /// Save the recorder.
    Save,
    /// Exit; everything recorded was saved.
    Exit,
    /// Exit, and report that entries recorded since the last save are lost.
    ExitReportingLoss,
}

pub open spec fn is_exit(d: Directive) -> bool {
    d is Exit || d is ExitReportingLoss
}

pub open spec fn step_spec(phase: Phase, event: Event) -> (Phase, Directive) {
    match (phase, event) {
        (Phase::Running, Event::Interrupt) => (Phase::Draining, Directive::StopIntake),
        (Phase::Draining, Event::IntakeStopped) => (Phase::Flushing, Directive::Save),
        (Phase::Flushing, Event::Saved) => (Phase::Terminated, Directive::Exit),
        (Phase::Flushing, Event::SaveFailed) => (Phase::Terminated, Directive::ExitReportingLoss),
        _ => (phase, Directive::Wait),
    }
}

/// The next phase, and what to do on entering it. Events that do not fit
/// the current phase change nothing.
pub fn step(phase: Phase, event: Event) -> (r: (Phase, Directive))
    ensures
        r == step_spec(phase, event),
{
    match (phase, event) {
        (Phase::Running, Event::Interrupt) => (Phase::Draining, Directive::StopIntake),
        (Phase::Draining, Event::IntakeStopped) => (Phase::Flushing, Directive::Save),
        (Phase::Flushing, Event::Saved) => (Phase::Terminated, Directive::Exit),
        (Phase::Flushing, Event::SaveFailed) => (Phase::Terminated, Directive::ExitReportingLoss),
        _ => (phase, Directive::Wait),
    }
}

/// The phase reached from `phase` through `events`, and the directives
/// given on the way.
pub open spec fn run(phase: Phase, events: Seq<Event>) -> (Phase, Seq<Directive>)
    decreases events.len(),
{
    if events.len() == 0 {
        (phase, Seq::empty())
    } else {
        let (next, d) = step_spec(phase, events[0]);
        let (last, ds) = run(next, events.drop_first());
        (last, seq![d] + ds)
    }
}

proof fn lemma_run_before_flushing(phase: Phase, events: Seq<Event>)
    requires
        phase is Running || phase is Draining,
    ensures
        ({
            let (last, ds) = run(phase, events);
            &&& last is Terminated ==> exists|i: int| 0 <= i < ds.len() && ds[i] is Save
            &&& forall|j: int|
                0 <= j < ds.len() && is_exit(#[trigger] ds[j]) ==> exists|i: int|
                    0 <= i < j && ds[i] is Save
        }),
    decreases events.len(),
{
    if events.len() > 0 {
        let (next, d) = step_spec(phase, events[0]);
        let (last, rest) = run(next, events.drop_first());
        let ds = seq![d] + rest;
        assert(run(phase, events) == (last, ds));
        assert(ds[0] == d);
        assert(forall|j: int| 1 <= j < ds.len() ==> ds[j] == rest[j - 1]);
        if next is Flushing {
            assert(d is Save);
            assert forall|j: int| 0 <= j < ds.len() && is_exit(#[trigger] ds[j]) implies exists|
                i: int,
            | 0 <= i < j && ds[i] is Save by {
                assert(j > 0);
                assert(ds[0] is Save);
            }
            assert(ds[0] is Save);
        } else {
            lemma_run_before_flushing(next, events.drop_first());
            if last is Terminated {
                let i = choose|i: int| 0 <= i < rest.len() && rest[i] is Save;
                assert(ds[i + 1] is Save);
            }
            assert forall|j: int| 0 <= j < ds.len() && is_exit(#[trigger] ds[j]) implies exists|
                i: int,
            | 0 <= i < j && ds[i] is Save by {
                assert(j > 0);
                assert(is_exit(rest[j - 1]));
                let i = choose|i: int| 0 <= i < j - 1 && rest[i] is Save;
                assert(ds[i + 1] is Save);
            }
        }
    }
}

/// Shutdown never skips the save: from a running process, every exit is
/// preceded by a save, and a process that terminated has saved.
pub proof fn lemma_shutdown_saves_before_exit(events: Seq<Event>)
    ensures
        ({
            let (last, ds) = run(Phase::Running, events);
            &&& last is Terminated ==> exists|i: int| 0 <= i < ds.len() && ds[i] is Save
            &&& forall|j: int|
                0 <= j < ds.len() && is_exit(#[trigger] ds[j]) ==> exists|i: int|
                    0 <= i < j && ds[i] is Save
        }),
{
    lemma_run_before_flushing(Phase::Running, events);
}

/// A failed save is never passed over: the exit that follows it reports
/// the loss.
pub proof fn lemma_failed_save_is_reported(phase: Phase)
    ensures
        !(step_spec(phase, Event::SaveFailed).1 is Exit),
        phase is Flushing ==> step_spec(phase, Event::SaveFailed) == (
            Phase::Terminated,
            Directive::ExitReportingLoss,
        ),
{
}

} // verus!
