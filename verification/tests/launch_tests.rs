use launch_orchestrator::orchestrator::{Action, Orchestrator, Stage};
use launch_orchestrator::outcome::{toast_for, CommandError, LaunchOutcome};
use launch_orchestrator::policy::{directives_for, LaunchPhase, LauncherBehavior, UIDirective};
use launch_orchestrator::profile::{EnvVar, LaunchStep};

fn step(name: &str) -> LaunchStep {
    LaunchStep {
        name: name.to_owned(),
        command: vec!["true".to_owned()],
        env: Vec::<EnvVar>::new(),
    }
}

/// Drive an attempt to the end, feeding the given results, and collect every
/// directive in the order it is handed out.
fn drive(
    behavior: LauncherBehavior,
    steps: Vec<LaunchStep>,
    step_results: Vec<Result<(), CommandError>>,
    start_result: Result<(), CommandError>,
    wait_result: Result<(), CommandError>,
) -> (Vec<UIDirective>, Orchestrator) {
    let (mut orch, mut observed) = Orchestrator::begin(behavior, steps);
    let mut step_results = step_results.into_iter();
    loop {
        match orch.next_action() {
            Action::RunStep(_) => {
                let r = step_results.next().expect("more steps offered than results given");
                orch.step_finished(r);
            }
            Action::StartProgram => orch.start_finished(start_result.clone()),
            Action::WaitForExit => orch.wait_finished(wait_result.clone()),
            Action::RunShutdown => orch.shutdown_finished(Ok(())),
            Action::Conclude => {
                let mut ds = orch.conclude();
                observed.append(&mut ds);
            }
            Action::Idle => break,
        }
    }
    (observed, orch)
}

#[test]
fn scenario_nothing_all_succeed() {
    let steps = vec![step("first"), step("second")];
    let (observed, orch) = drive(
        LauncherBehavior::Nothing,
        steps,
        vec![Ok(()), Ok(())],
        Ok(()),
        Ok(()),
    );
    assert_eq!(
        observed,
        vec![
            UIDirective::DisableLaunchControls(true),
            UIDirective::SetKillSwitch(true),
            UIDirective::SetKillSwitch(false),
            UIDirective::DisableLaunchControls(false),
        ]
    );
    assert_eq!(orch.outcome, Some(LaunchOutcome::Succeeded));
}

#[test]
fn scenario_hide_second_step_fails() {
    let steps = vec![step("one"), step("two"), step("three")];
    let spawn_error = CommandError::SpawnFailed("no such command".to_owned());
    let (mut orch, pre) = Orchestrator::begin(LauncherBehavior::Hide, steps);
    assert_eq!(pre, vec![UIDirective::HideWindow]);

    assert_eq!(orch.next_action(), Action::RunStep(0));
    orch.step_finished(Ok(()));
    assert_eq!(orch.next_action(), Action::RunStep(1));
    assert_eq!(orch.current_step().name, "two");
    orch.step_finished(Err(spawn_error.clone()));

    // step three and the program start are never offered: shutdown comes next
    assert_eq!(orch.next_action(), Action::RunShutdown);
    orch.shutdown_finished(Ok(()));
    assert_eq!(orch.next_action(), Action::Conclude);
    let ds = orch.conclude();
    assert_eq!(orch.next_action(), Action::Idle);

    assert_eq!(
        ds,
        vec![
            UIDirective::Toast {
                title: "launch failed".to_owned(),
                detail: Some("no such command".to_owned()),
            },
            UIDirective::ShowWindow,
        ]
    );
    assert_eq!(
        orch.outcome,
        Some(LaunchOutcome::FailedDuringPreparation {
            step: "two".to_owned(),
            cause: spawn_error,
        })
    );
}

#[test]
fn scenario_close_all_succeed() {
    let steps = vec![step("first"), step("second")];
    let (observed, orch) = drive(
        LauncherBehavior::Close,
        steps,
        vec![Ok(()), Ok(())],
        Ok(()),
        Ok(()),
    );
    // no pre-start directive, no toast, only the termination directive,
    // which must go through the interactive run loop
    assert_eq!(observed, vec![UIDirective::TerminateApplication]);
    assert!(observed[0].requires_main_context());
    assert_eq!(orch.outcome, Some(LaunchOutcome::Succeeded));
}

#[test]
fn start_failure_toasts_and_still_shuts_down() {
    let steps = vec![step("only")];
    let cause = CommandError::SpawnFailed("program missing".to_owned());
    let (mut orch, _) = Orchestrator::begin(LauncherBehavior::Nothing, steps);
    orch.step_finished(Ok(()));
    assert_eq!(orch.next_action(), Action::StartProgram);
    orch.start_finished(Err(cause.clone()));
    assert_eq!(orch.next_action(), Action::RunShutdown);
    orch.shutdown_finished(Err(CommandError::WaitFailed("ignored".to_owned())));
    let ds = orch.conclude();
    assert_eq!(orch.outcome, Some(LaunchOutcome::FailedToStart { cause }));
    assert!(matches!(ds[0], UIDirective::Toast { .. }));
    assert_eq!(ds[1], UIDirective::SetKillSwitch(false));
    assert_eq!(ds[2], UIDirective::DisableLaunchControls(false));
}

#[test]
fn wait_failure_becomes_failed_during_execution() {
    let cause = CommandError::WaitFailed("wait interrupted".to_owned());
    let (observed, orch) = drive(
        LauncherBehavior::Hide,
        vec![step("only")],
        vec![Ok(())],
        Ok(()),
        Err(cause.clone()),
    );
    assert_eq!(orch.outcome, Some(LaunchOutcome::FailedDuringExecution { cause }));
    assert_eq!(observed.len(), 3);
    assert_eq!(observed[0], UIDirective::HideWindow);
    assert_eq!(
        observed[1],
        UIDirective::Toast {
            title: "launch failed".to_owned(),
            detail: Some("wait interrupted".to_owned()),
        }
    );
    assert_eq!(observed[2], UIDirective::ShowWindow);
}

#[test]
fn no_steps_goes_straight_to_start() {
    let (orch, pre) = Orchestrator::begin(LauncherBehavior::Nothing, Vec::new());
    assert_eq!(pre.len(), 2);
    assert_eq!(orch.stage, Stage::Starting);
    assert_eq!(orch.next_action(), Action::StartProgram);
}

#[test]
fn exactly_one_toast_on_failure_none_on_success() {
    let count_toasts = |ds: &[UIDirective]| {
        ds.iter()
            .filter(|d| matches!(d, UIDirective::Toast { .. }))
            .count()
    };
    let (ok_trace, _) = drive(
        LauncherBehavior::Nothing,
        vec![step("a")],
        vec![Ok(())],
        Ok(()),
        Ok(()),
    );
    assert_eq!(count_toasts(&ok_trace), 0);
    let (bad_trace, _) = drive(
        LauncherBehavior::Nothing,
        vec![step("a")],
        vec![Err(CommandError::SpawnFailed("gone".to_owned()))],
        Ok(()),
        Ok(()),
    );
    assert_eq!(count_toasts(&bad_trace), 1);
}

#[test]
fn policy_table_is_exact() {
    assert_eq!(
        directives_for(LauncherBehavior::Nothing, LaunchPhase::PreStart),
        vec![
            UIDirective::DisableLaunchControls(true),
            UIDirective::SetKillSwitch(true)
        ]
    );
    assert_eq!(
        directives_for(LauncherBehavior::Nothing, LaunchPhase::PostExit),
        vec![
            UIDirective::SetKillSwitch(false),
            UIDirective::DisableLaunchControls(false)
        ]
    );
    assert_eq!(
        directives_for(LauncherBehavior::Hide, LaunchPhase::PreStart),
        vec![UIDirective::HideWindow]
    );
    assert_eq!(
        directives_for(LauncherBehavior::Hide, LaunchPhase::PostExit),
        vec![UIDirective::ShowWindow]
    );
    assert_eq!(
        directives_for(LauncherBehavior::Close, LaunchPhase::PreStart),
        Vec::<UIDirective>::new()
    );
    assert_eq!(
        directives_for(LauncherBehavior::Close, LaunchPhase::PostExit),
        vec![UIDirective::TerminateApplication]
    );
}

#[test]
fn only_termination_needs_the_main_context() {
    assert!(UIDirective::TerminateApplication.requires_main_context());
    assert!(!UIDirective::HideWindow.requires_main_context());
    assert!(!UIDirective::ShowWindow.requires_main_context());
    assert!(!UIDirective::DisableLaunchControls(true).requires_main_context());
    assert!(!UIDirective::SetKillSwitch(true).requires_main_context());
    let toast = UIDirective::Toast { title: "t".to_owned(), detail: None };
    assert!(!toast.requires_main_context());
}

#[test]
fn toast_for_each_outcome() {
    assert_eq!(toast_for(&LaunchOutcome::Succeeded), None);
    let prep = LaunchOutcome::FailedDuringPreparation {
        step: "one".to_owned(),
        cause: CommandError::SpawnFailed("a".to_owned()),
    };
    assert_eq!(
        toast_for(&prep),
        Some(UIDirective::Toast {
            title: "launch failed".to_owned(),
            detail: Some("a".to_owned()),
        })
    );
    let start = LaunchOutcome::FailedToStart {
        cause: CommandError::SpawnFailed("b".to_owned()),
    };
    assert_eq!(
        toast_for(&start),
        Some(UIDirective::Toast {
            title: "launch failed".to_owned(),
            detail: Some("b".to_owned()),
        })
    );
    let exec = LaunchOutcome::FailedDuringExecution {
        cause: CommandError::WaitFailed("c".to_owned()),
    };
    assert_eq!(
        toast_for(&exec),
        Some(UIDirective::Toast {
            title: "launch failed".to_owned(),
            detail: Some("c".to_owned()),
        })
    );
}

#[test]
fn command_error_message() {
    assert_eq!(CommandError::SpawnFailed("x".to_owned()).message(), "x");
    assert_eq!(CommandError::WaitFailed("y".to_owned()).message(), "y");
}
