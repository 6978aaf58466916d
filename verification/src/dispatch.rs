//! The per-invocation dispatch state machine.
//!
//! Each invocation is handled exactly once: it is parsed, on success
//! executed, and any failure is reported through the reply boundary exactly
//! once; a failure of the report itself is swallowed. The hosting binary
//! performs the actions (the suspending parts) and feeds each outcome back;
//! the library decides every transition.

use vstd::prelude::*;

verus! {

/// Where one invocation stands.
#[derive(Clone, Copy, Debug, PartialEq, Eq)]
pub enum DispatchState {
    Received,
    Parsed,
    ParseFailed,
    Executed,
    ExecuteFailed,
    Reported,
    Done,
}

/// How the action just performed came out.
#[derive(Clone, Copy, Debug, PartialEq, Eq)]
pub enum StepOutcome {
    Success,
    Failure,
}

/// What the driver must do next.
#[derive(Clone, Copy, Debug, PartialEq, Eq)]
pub enum DispatchAction {
    /// Parse the invocation.
    Parse,
    /// Execute the parsed arguments; the one point where handler bodies may
    /// suspend.
    Execute,
    /// Report the failure through the reply boundary.
    Report,
    /// Nothing is left to do.
    Finish,
}

/// The action owed in each state.
pub open spec fn spec_next_action(s: DispatchState) -> DispatchAction {
    match s {
        DispatchState::Received => DispatchAction::Parse,
        DispatchState::Parsed => DispatchAction::Execute,
        DispatchState::ParseFailed => DispatchAction::Report,
        DispatchState::ExecuteFailed => DispatchAction::Report,
        DispatchState::Executed => DispatchAction::Finish,
        DispatchState::Reported => DispatchAction::Finish,
        DispatchState::Done => DispatchAction::Finish,
    }
}

/// The state after performing the owed action with the given outcome. A
/// failed report still moves to `Reported`: report failures are logged and
/// swallowed, never retried.
pub open spec fn spec_step(s: DispatchState, o: StepOutcome) -> DispatchState {
    match s {
        DispatchState::Received => match o {
            StepOutcome::Success => DispatchState::Parsed,
            StepOutcome::Failure => DispatchState::ParseFailed,
        },
        DispatchState::Parsed => match o {
            StepOutcome::Success => DispatchState::Executed,
            StepOutcome::Failure => DispatchState::ExecuteFailed,
        },
        DispatchState::ParseFailed => DispatchState::Reported,
        DispatchState::ExecuteFailed => DispatchState::Reported,
        DispatchState::Executed => DispatchState::Done,
        DispatchState::Reported => DispatchState::Done,
        DispatchState::Done => DispatchState::Done,
    }
}

/// How far along an invocation is; every transition strictly increases it,
/// so no state is ever revisited and nothing is retried.
pub open spec fn spec_progress(s: DispatchState) -> int {
    match s {
        DispatchState::Received => 0,
        DispatchState::Parsed => 1,
        DispatchState::ParseFailed => 1,
        DispatchState::Executed => 2,
        DispatchState::ExecuteFailed => 2,
        DispatchState::Reported => 3,
        DispatchState::Done => 4,
    }
}

pub fn next_action(s: DispatchState) -> (a: DispatchAction)
    ensures
        a == spec_next_action(s),
{
    match s {
        DispatchState::Received => DispatchAction::Parse,
        DispatchState::Parsed => DispatchAction::Execute,
        DispatchState::ParseFailed => DispatchAction::Report,
        DispatchState::ExecuteFailed => DispatchAction::Report,
        DispatchState::Executed => DispatchAction::Finish,
        DispatchState::Reported => DispatchAction::Finish,
        DispatchState::Done => DispatchAction::Finish,
    }
}

pub fn dispatch_step(s: DispatchState, o: StepOutcome) -> (n: DispatchState)
    ensures
        n == spec_step(s, o),
        s != DispatchState::Done ==> spec_progress(n) > spec_progress(s),
{
    match s {
        DispatchState::Received => match o {
            StepOutcome::Success => DispatchState::Parsed,
            StepOutcome::Failure => DispatchState::ParseFailed,
        },
        DispatchState::Parsed => match o {
            StepOutcome::Success => DispatchState::Executed,
            StepOutcome::Failure => DispatchState::ExecuteFailed,
        },
        DispatchState::ParseFailed => DispatchState::Reported,
        DispatchState::ExecuteFailed => DispatchState::Reported,
        DispatchState::Executed => DispatchState::Done,
        DispatchState::Reported => DispatchState::Done,
        DispatchState::Done => DispatchState::Done,
    }
}

/// The state reached from `s` after feeding the outcomes in order.
pub open spec fn spec_run(s: DispatchState, outs: Seq<StepOutcome>) -> DispatchState
    decreases outs.len(),
{
    if outs.len() == 0 {
        s
    } else {
        spec_run(spec_step(s, outs[0]), outs.drop_first())
    }
}

/// How many report actions a run performs.
pub open spec fn spec_reports_in_run(s: DispatchState, outs: Seq<StepOutcome>) -> int
    decreases outs.len(),
{
    if outs.len() == 0 {
        0
    } else {
        (if spec_next_action(s) == DispatchAction::Report {
            1int
        } else {
            0int
        }) + spec_reports_in_run(spec_step(s, outs[0]), outs.drop_first())
    }
}

/// Running from `Done` stays at `Done`, whatever the outcomes.
proof fn lemma_done_absorbs(outs: Seq<StepOutcome>)
    ensures
        spec_run(DispatchState::Done, outs) == DispatchState::Done,
    decreases outs.len(),
{
    if outs.len() > 0 {
        assert(spec_step(DispatchState::Done, outs[0]) == DispatchState::Done);
        lemma_done_absorbs(outs.drop_first());
    }
}

/// Every invocation terminates: from `Received`, any four or more outcomes
/// reach `Done`, and `Done` absorbs whatever follows.
pub proof fn lemma_run_terminates(outs: Seq<StepOutcome>)
    requires
        outs.len() >= 4,
    ensures
        spec_run(DispatchState::Received, outs) == DispatchState::Done,
{
    let t1 = outs.drop_first();
    let t2 = t1.drop_first();
    let t3 = t2.drop_first();
    let t4 = t3.drop_first();
    let s1 = spec_step(DispatchState::Received, outs[0]);
    let s2 = spec_step(s1, t1[0]);
    let s3 = spec_step(s2, t2[0]);
    let s4 = spec_step(s3, t3[0]);
    assert(spec_run(DispatchState::Received, outs) == spec_run(s1, t1));
    assert(spec_run(s1, t1) == spec_run(s2, t2));
    assert(spec_run(s2, t2) == spec_run(s3, t3));
    assert(spec_run(s3, t3) == spec_run(s4, t4));
    assert(s4 == DispatchState::Done);
    lemma_done_absorbs(t4);
}

/// Every failure funnels through exactly one report, and a fully successful
/// invocation reports nothing: in a complete run, the report action is
/// performed exactly once when parsing or execution failed, and never
/// otherwise.
pub proof fn lemma_single_report(outs: Seq<StepOutcome>)
    requires
        outs.len() == 4,
    ensures
        spec_reports_in_run(DispatchState::Received, outs) == (
        if outs[0] == StepOutcome::Failure || outs[1] == StepOutcome::Failure {
            1int
        } else {
            0int
        }),
{
    let t1 = outs.drop_first();
    let t2 = t1.drop_first();
    let t3 = t2.drop_first();
    let t4 = t3.drop_first();
    let s1 = spec_step(DispatchState::Received, outs[0]);
    let s2 = spec_step(s1, t1[0]);
    let s3 = spec_step(s2, t2[0]);
    assert(t4.len() == 0);
    assert(spec_reports_in_run(DispatchState::Received, outs) == spec_reports_in_run(s1, t1));
    assert(spec_reports_in_run(s1, t1) == (if spec_next_action(s1) == DispatchAction::Report {
        1int
    } else {
        0int
    }) + spec_reports_in_run(s2, t2));
    assert(spec_reports_in_run(s2, t2) == (if spec_next_action(s2) == DispatchAction::Report {
        1int
    } else {
        0int
    }) + spec_reports_in_run(s3, t3));
    assert(spec_reports_in_run(s3, t3) == (if spec_next_action(s3) == DispatchAction::Report {
        1int
    } else {
        0int
    }) + spec_reports_in_run(spec_step(s3, t3[0]), t4));
}

} // verus!
