use cmdtree::dispatch::{dispatch_step, next_action, DispatchAction, DispatchState, StepOutcome};

fn run(outcomes: [StepOutcome; 4]) -> (DispatchState, usize) {
    let mut state = DispatchState::Received;
    let mut reports: usize = 0;
    for outcome in outcomes {
        if next_action(state) == DispatchAction::Report {
            reports += 1;
        }
        state = dispatch_step(state, outcome);
    }
    (state, reports)
}

#[test]
fn successful_invocation_never_reports() {
    let (state, reports) = run([
        StepOutcome::Success,
        StepOutcome::Success,
        StepOutcome::Success,
        StepOutcome::Success,
    ]);
    assert_eq!(state, DispatchState::Done);
    assert_eq!(reports, 0);
}

#[test]
fn parse_failure_reports_once() {
    let (state, reports) = run([
        StepOutcome::Failure,
        StepOutcome::Success,
        StepOutcome::Success,
        StepOutcome::Success,
    ]);
    assert_eq!(state, DispatchState::Done);
    assert_eq!(reports, 1);
}

#[test]
fn execute_failure_reports_once_even_when_the_report_fails() {
    let (state, reports) = run([
        StepOutcome::Success,
        StepOutcome::Failure,
        StepOutcome::Failure,
        StepOutcome::Success,
    ]);
    assert_eq!(state, DispatchState::Done);
    assert_eq!(reports, 1);
}

#[test]
fn actions_owed_by_state() {
    assert_eq!(next_action(DispatchState::Received), DispatchAction::Parse);
    assert_eq!(next_action(DispatchState::Parsed), DispatchAction::Execute);
    assert_eq!(next_action(DispatchState::ParseFailed), DispatchAction::Report);
    assert_eq!(next_action(DispatchState::ExecuteFailed), DispatchAction::Report);
    assert_eq!(next_action(DispatchState::Executed), DispatchAction::Finish);
    assert_eq!(next_action(DispatchState::Reported), DispatchAction::Finish);
    assert_eq!(next_action(DispatchState::Done), DispatchAction::Finish);
}

#[test]
fn failure_states_move_to_reported_then_done() {
    let failed = dispatch_step(DispatchState::Received, StepOutcome::Failure);
    assert_eq!(failed, DispatchState::ParseFailed);
    let reported = dispatch_step(failed, StepOutcome::Failure);
    assert_eq!(reported, DispatchState::Reported);
    assert_eq!(dispatch_step(reported, StepOutcome::Success), DispatchState::Done);
}
