use minibox::bootstrap::{
    boot_step, start_bootstrap, BootAction, BootEvent, BootPhase, BootSession, CommandSpec,
};
use minibox::errors::PullError;

fn shell_command() -> CommandSpec {
    CommandSpec {
        executable_path: "/bin/sh".to_string(),
        args: vec!["-c".to_string(), "echo ok".to_string()],
    }
}

fn started() -> BootSession {
    let (session, action) = start_bootstrap("/tmp/scratch".to_string(), shell_command()).unwrap();
    assert!(matches!(action, BootAction::PrepareRoot));
    session
}

#[test]
fn relative_executable_path_is_a_stage_error() {
    let command = CommandSpec { executable_path: "bin/sh".to_string(), args: vec![] };
    assert!(matches!(
        start_bootstrap("/tmp/scratch".to_string(), command),
        Err(PullError::Stage)
    ));
}

#[test]
fn empty_executable_path_is_a_stage_error() {
    let command = CommandSpec { executable_path: String::new(), args: vec![] };
    assert!(matches!(
        start_bootstrap("/tmp/scratch".to_string(), command),
        Err(PullError::Stage)
    ));
}

#[test]
fn successful_bootstrap_walks_the_phases_in_order_and_exits_zero() {
    let session = started();

    let (session, action) = boot_step(session, BootEvent::Succeeded);
    assert!(matches!(action, BootAction::RunPull));
    assert_eq!(session.phase, BootPhase::Pulling);

    let (session, action) = boot_step(session, BootEvent::Succeeded);
    match &action {
        BootAction::StageExecutable { source, destination } => {
            assert_eq!(source.as_str(), "/bin/sh");
            assert_eq!(destination.as_str(), "/tmp/scratch/bin/sh");
        },
        _ => panic!("expected a stage action"),
    }
    assert_eq!(session.phase, BootPhase::Staging);

    let (session, action) = boot_step(session, BootEvent::Succeeded);
    assert!(matches!(action, BootAction::UnsharePidNamespace));
    assert_eq!(session.phase, BootPhase::Unsharing);

    let (session, action) = boot_step(session, BootEvent::Succeeded);
    assert!(matches!(action, BootAction::ChangeRoot));
    assert_eq!(session.phase, BootPhase::Chrooting);

    let (session, action) = boot_step(session, BootEvent::Succeeded);
    match &action {
        BootAction::Exec { path, args } => {
            assert_eq!(path.as_str(), "/bin/sh");
            assert_eq!(args, &vec!["-c".to_string(), "echo ok".to_string()]);
        },
        _ => panic!("expected an exec action"),
    }
    assert_eq!(session.phase, BootPhase::Running);

    let (session, action) = boot_step(session, BootEvent::ChildExited { code: Some(0) });
    assert!(matches!(action, BootAction::ExitWith { code: 0 }));
    assert_eq!(session.phase, BootPhase::Finished { code: 0 });
}

#[test]
fn child_exit_code_is_propagated() {
    let session = started();
    let (session, _) = boot_step(session, BootEvent::Succeeded);
    let (session, _) = boot_step(session, BootEvent::Succeeded);
    let (session, _) = boot_step(session, BootEvent::Succeeded);
    let (session, _) = boot_step(session, BootEvent::Succeeded);
    let (session, _) = boot_step(session, BootEvent::Succeeded);
    let (_, action) = boot_step(session, BootEvent::ChildExited { code: Some(42) });
    assert!(matches!(action, BootAction::ExitWith { code: 42 }));
}

#[test]
fn signal_terminated_child_exits_one() {
    let session = started();
    let (session, _) = boot_step(session, BootEvent::Succeeded);
    let (session, _) = boot_step(session, BootEvent::Succeeded);
    let (session, _) = boot_step(session, BootEvent::Succeeded);
    let (session, _) = boot_step(session, BootEvent::Succeeded);
    let (session, _) = boot_step(session, BootEvent::Succeeded);
    let (session, action) = boot_step(session, BootEvent::ChildExited { code: None });
    assert!(matches!(action, BootAction::ExitWith { code: 1 }));
    assert_eq!(session.phase, BootPhase::Finished { code: 1 });
}

#[test]
fn pull_failure_aborts_with_the_pull_error() {
    let session = started();
    let (session, _) = boot_step(session, BootEvent::Succeeded);
    let (session, action) = boot_step(
        session,
        BootEvent::PullFailed { error: PullError::Network },
    );
    assert!(matches!(action, BootAction::Report { error: PullError::Network }));
    assert_eq!(session.phase, BootPhase::Aborted { error: PullError::Network });
}

#[test]
fn unshare_failure_aborts_with_an_isolation_error() {
    let session = started();
    let (session, _) = boot_step(session, BootEvent::Succeeded);
    let (session, _) = boot_step(session, BootEvent::Succeeded);
    let (session, _) = boot_step(session, BootEvent::Succeeded);
    let (_, action) = boot_step(session, BootEvent::Failed);
    assert!(matches!(action, BootAction::Report { error: PullError::Isolation }));
}

#[test]
fn spawn_failure_aborts_with_an_exec_error() {
    let session = started();
    let (session, _) = boot_step(session, BootEvent::Succeeded);
    let (session, _) = boot_step(session, BootEvent::Succeeded);
    let (session, _) = boot_step(session, BootEvent::Succeeded);
    let (session, _) = boot_step(session, BootEvent::Succeeded);
    let (session, _) = boot_step(session, BootEvent::Succeeded);
    let (_, action) = boot_step(session, BootEvent::SpawnFailed);
    assert!(matches!(action, BootAction::Report { error: PullError::Exec }));
}
