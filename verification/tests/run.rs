use std::io::{Error, ErrorKind};

use system_manager::command_builder::{
    Action, CommandError, Executer, Outcome, OutputDiscipline,
};
use system_manager::options::ToSwitch;
use system_manager::run::{Status, SwitchRun};
use system_manager::{switch, Config, Errors};

fn config() -> Config {
    Config {
        identity: "laptop".into(),
        nix_path: "/etc/nixos".into(),
    }
}

/// The command line that the run wants the shell to run next.
fn asked_of_the_shell(run: &SwitchRun) -> String {
    match run.pending() {
        Some(Action::Spawn { mut invocation }) => {
            assert_eq!(invocation.program, "sh");
            assert_eq!(invocation.args.len(), 2);
            assert_eq!(invocation.args[0], "-c");
            invocation.args.remove(1)
        }
        other => panic!("no program was asked for: {other:?}"),
    }
}

#[test]
fn nothing_asked_succeeds_without_a_command() {
    let mut run = switch(
        &config(),
        &[],
        false,
        Executer::new(false, OutputDiscipline::Streamed),
    );
    assert_eq!(run.status(), Status::Succeeded);
    assert!(run.pending().is_none());
    assert!(run.resume(Outcome::Finished { delivered: true, success: false }).is_ok());
    assert_eq!(run.status(), Status::Succeeded);
}

#[test]
fn first_failure_halts_the_run() {
    let mut run = SwitchRun::new(
        Executer::new(false, OutputDiscipline::Captured),
        vec!["first".to_string(), "second".to_string()],
    );
    assert_eq!(run.status(), Status::Pending);
    assert_eq!(asked_of_the_shell(&run), "first");

    match run.resume(Outcome::Finished { delivered: true, success: false }) {
        Err(Errors::CommandError(CommandError::Failed { command })) => {
            assert_eq!(command, "first")
        }
        other => panic!("the failure was not handed on: {other:?}"),
    }

    assert_eq!(run.status(), Status::Failed);
    assert!(run.pending().is_none());
}

#[test]
fn nothing_revives_a_failed_run() {
    let mut run = SwitchRun::new(
        Executer::new(false, OutputDiscipline::Captured),
        vec!["first".to_string(), "second".to_string()],
    );
    assert!(run.resume(Outcome::Finished { delivered: false, success: true }).is_err());
    assert!(run.resume(Outcome::Finished { delivered: true, success: true }).is_ok());
    assert!(run.resume(Outcome::Finished { delivered: true, success: true }).is_ok());
    assert_eq!(run.status(), Status::Failed);
    assert!(run.pending().is_none());
}

#[test]
fn commands_are_run_in_order_until_none_is_left() {
    let mut run = switch(
        &config(),
        &[ToSwitch::System { offline: true }, ToSwitch::Home],
        true,
        Executer::new(false, OutputDiscipline::Streamed),
    );
    let expected = [
        "echo 'Sudo perms required for system rebuild.'",
        "sudo echo 'Sudo perms given for system rebuild.'",
        "nix flake update --flake /etc/nixos",
        "sudo nixos-rebuild --option experimental-features 'nix-command flakes pipe-operators' switch --flake /etc/nixos#laptop --offline",
        "home-manager switch --flake /etc/nixos#laptop",
    ];
    for command in expected {
        assert_eq!(run.status(), Status::Pending);
        assert_eq!(asked_of_the_shell(&run), command);
        assert!(run.resume(Outcome::Finished { delivered: true, success: true }).is_ok());
    }
    assert_eq!(run.status(), Status::Succeeded);
    assert!(run.pending().is_none());
}

#[test]
fn failure_in_the_middle_skips_the_rest() {
    let mut run = switch(
        &config(),
        &[ToSwitch::System { offline: false }, ToSwitch::Home],
        false,
        Executer::new(false, OutputDiscipline::Streamed),
    );
    assert!(run.resume(Outcome::Finished { delivered: true, success: true }).is_ok());
    assert_eq!(
        asked_of_the_shell(&run),
        "sudo echo 'Sudo perms given for system rebuild.'"
    );
    match run.resume(Outcome::Finished { delivered: true, success: false }) {
        Err(Errors::CommandError(CommandError::Failed { command })) => {
            assert_eq!(command, "sudo echo 'Sudo perms given for system rebuild.'")
        }
        other => panic!("the failure was not handed on: {other:?}"),
    }
    assert_eq!(run.status(), Status::Failed);
    assert!(run.pending().is_none());
}

#[test]
fn a_shell_that_cannot_start_ends_the_run() {
    let mut run = switch(
        &config(),
        &[ToSwitch::Home],
        true,
        Executer::new(false, OutputDiscipline::Captured),
    );
    let cause = Error::new(ErrorKind::PermissionDenied, "no");
    match run.resume(Outcome::NotSpawned { err: cause }) {
        Err(Errors::CommandError(CommandError::ExecutionError { err, command })) => {
            assert_eq!(err.kind(), ErrorKind::PermissionDenied);
            assert_eq!(command, "nix flake update --flake /etc/nixos");
        }
        other => panic!("the failure was not handed on: {other:?}"),
    }
    assert_eq!(run.status(), Status::Failed);
}

#[test]
fn lost_output_ends_the_run() {
    let mut run = switch(
        &config(),
        &[ToSwitch::Home],
        false,
        Executer::new(false, OutputDiscipline::Captured),
    );
    assert!(matches!(
        run.resume(Outcome::Finished { delivered: false, success: true }),
        Err(Errors::CommandError(CommandError::PipeOutput))
    ));
    assert_eq!(run.status(), Status::Failed);
    assert!(run.pending().is_none());
}

#[test]
fn display_never_asks_for_a_program() {
    let mut run = switch(
        &config(),
        &[ToSwitch::System { offline: false }, ToSwitch::Home],
        true,
        Executer::new(true, OutputDiscipline::Streamed),
    );
    let mut written = String::new();
    while let Some(action) = run.pending() {
        match action {
            Action::Emit { text } => written.push_str(&text),
            Action::Spawn { .. } => panic!("display mode asked for a program"),
        }
        // Whatever is reported, a display goes on.
        assert!(run.resume(Outcome::Finished { delivered: true, success: false }).is_ok());
    }
    assert_eq!(run.status(), Status::Succeeded);
    assert_eq!(
        written,
        "echo 'Sudo perms required for system rebuild.'\n\
         sudo echo 'Sudo perms given for system rebuild.'\n\
         nix flake update --flake /etc/nixos\n\
         sudo nixos-rebuild --option experimental-features 'nix-command flakes pipe-operators' switch --flake /etc/nixos#laptop\n\
         home-manager switch --flake /etc/nixos#laptop\n"
    );
}

#[test]
fn run_keeps_its_executer() {
    let run = SwitchRun::new(Executer::new(true, OutputDiscipline::Captured), Vec::new());
    assert!(run.executer().display);
    assert_eq!(run.executer().out, OutputDiscipline::Captured);
}
