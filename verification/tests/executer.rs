use std::io::{Error, ErrorKind};

use system_manager::command_builder::{
    Action, CommandError, Executer, Outcome, OutputDiscipline,
};

#[test]
fn new_keeps_its_settings() {
    let executer = Executer::new(true, OutputDiscipline::Captured);
    assert!(executer.display);
    assert_eq!(executer.out, OutputDiscipline::Captured);

    let executer = Executer::new(false, OutputDiscipline::Streamed);
    assert!(!executer.display);
    assert_eq!(executer.out, OutputDiscipline::Streamed);
}

#[test]
fn display_writes_the_command_and_a_line_feed() {
    let executer = Executer::new(true, OutputDiscipline::Streamed);
    match executer.action("nix flake update --flake /etc/nixos") {
        Action::Emit { text } => assert_eq!(text, "nix flake update --flake /etc/nixos\n"),
        Action::Spawn { .. } => panic!("display mode asked for a program"),
    }
}

#[test]
fn display_writes_an_empty_command_as_an_empty_line() {
    let executer = Executer::new(true, OutputDiscipline::Captured);
    match executer.action("") {
        Action::Emit { text } => assert_eq!(text, "\n"),
        Action::Spawn { .. } => panic!("display mode asked for a program"),
    }
}

#[test]
fn run_hands_the_command_to_the_shell_as_one_argument() {
    let executer = Executer::new(false, OutputDiscipline::Captured);
    match executer.action("echo 'a b' && false") {
        Action::Spawn { invocation } => {
            assert_eq!(invocation.program, "sh");
            assert_eq!(invocation.args, vec!["-c", "echo 'a b' && false"]);
            assert!(invocation.capture);
        }
        Action::Emit { .. } => panic!("run mode wrote the command"),
    }
}

#[test]
fn streamed_run_leaves_the_output_on_the_console() {
    let executer = Executer::new(false, OutputDiscipline::Streamed);
    match executer.action("true") {
        Action::Spawn { invocation } => {
            assert_eq!(invocation.program, "sh");
            assert_eq!(invocation.args, vec!["-c", "true"]);
            assert!(!invocation.capture);
        }
        Action::Emit { .. } => panic!("run mode wrote the command"),
    }
}

#[test]
fn exit_with_success_is_success() {
    let executer = Executer::new(false, OutputDiscipline::Captured);
    assert!(executer
        .judge("true", Outcome::Finished { delivered: true, success: true })
        .is_ok());
}

#[test]
fn exit_without_success_is_failed_with_the_command() {
    let executer = Executer::new(false, OutputDiscipline::Captured);
    match executer.judge("false", Outcome::Finished { delivered: true, success: false }) {
        Err(CommandError::Failed { command }) => assert_eq!(command, "false"),
        other => panic!("not a failure of the command: {other:?}"),
    }
}

#[test]
fn no_spawn_is_an_execution_error_with_its_cause() {
    let executer = Executer::new(false, OutputDiscipline::Streamed);
    let cause = Error::new(ErrorKind::NotFound, "no shell here");
    match executer.judge("true", Outcome::NotSpawned { err: cause }) {
        Err(CommandError::ExecutionError { err, command }) => {
            assert_eq!(err.kind(), ErrorKind::NotFound);
            assert_eq!(err.to_string(), "no shell here");
            assert_eq!(command, "true");
        }
        other => panic!("not an execution error: {other:?}"),
    }
}

#[test]
fn undelivered_output_is_a_pipe_error() {
    let executer = Executer::new(false, OutputDiscipline::Captured);
    assert!(matches!(
        executer.judge("true", Outcome::Finished { delivered: false, success: true }),
        Err(CommandError::PipeOutput)
    ));
}

#[test]
fn undelivered_output_comes_before_the_exit_status() {
    let executer = Executer::new(false, OutputDiscipline::Captured);
    assert!(matches!(
        executer.judge(
            "false",
            Outcome::Finished {
                delivered: false,
                success: false
            }
        ),
        Err(CommandError::PipeOutput)
    ));
}

#[test]
fn display_always_succeeds() {
    let executer = Executer::new(true, OutputDiscipline::Captured);
    assert!(executer
        .judge("x", Outcome::Finished { delivered: true, success: true })
        .is_ok());
    assert!(executer
        .judge("x", Outcome::Finished { delivered: true, success: false })
        .is_ok());
    assert!(executer
        .judge(
            "x",
            Outcome::Finished {
                delivered: false,
                success: false
            }
        )
        .is_ok());
    assert!(executer
        .judge(
            "x",
            Outcome::NotSpawned {
                err: Error::new(ErrorKind::Other, "unused"),
            }
        )
        .is_ok());
}
