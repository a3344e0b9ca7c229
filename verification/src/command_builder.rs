//! The executer: what running one command line asks of the operating system,
//! and how what came back is judged.
//!
//! Nothing here starts a process or writes to a console. An [`Executer`]
//! turns a command line into an [`Action`]; a driver outside this library
//! carries the action out and reports an [`Outcome`]; the executer then says
//! whether the command succeeded.

use vstd::prelude::*;
use vstd::string::*;

use crate::texts;

verus! {

/// `std::io::Error`: why the operating system refused to start a program. The
/// library hands the value on unread.
#[verifier::external_type_specification]
#[verifier::external_body]
pub struct ExIoError(std::io::Error);

/// Where the output of a started program goes.
#[derive(Clone, Copy, Debug, PartialEq, Eq, Structural)]
pub enum OutputDiscipline {
    /// The program writes to the console of the caller, as it runs.
    Streamed,
    /// The output is collected and then written to a sink of the driver.
    Captured,
}

/// Used to execute commands.
///
/// It allows for shared output and configurations between commands.
#[derive(Clone, Copy, Debug)]
pub struct Executer {
    /// Whether the commands should be executed or displayed.
    pub display: bool,
    /// Where the output of the commands goes.
    pub out: OutputDiscipline,
}

/// The possible errors when executing commands.
#[derive(Debug)]
pub enum CommandError {
    /// The program could not be started.
    ExecutionError { err: std::io::Error, command: String },
    /// The program ran and left with a status other than success.
    Failed { command: String },
    /// The collected output could not be written to the sink.
    PipeOutput,
}

/// A [`CommandError`] with its command as a sequence of characters.
pub enum CommandErrorView {
    ExecutionError { err: std::io::Error, command: Seq<char> },
    Failed { command: Seq<char> },
    PipeOutput,
}

impl View for CommandError {
    type V = CommandErrorView;

    open spec fn view(&self) -> CommandErrorView {
        match *self {
            CommandError::ExecutionError { err, command } => CommandErrorView::ExecutionError {
                err,
                command: command@,
            },
            CommandError::Failed { command } => CommandErrorView::Failed { command: command@ },
            CommandError::PipeOutput => CommandErrorView::PipeOutput,
        }
    }
}

/// A program to start, with its arguments.
#[derive(Debug)]
pub struct Invocation {
    pub program: String,
    pub args: Vec<String>,
    /// Whether the output is to be collected rather than left on the console.
    pub capture: bool,
}

/// An [`Invocation`] as sequences of characters.
pub struct InvocationView {
    pub program: Seq<char>,
    pub args: Seq<Seq<char>>,
    pub capture: bool,
}

impl View for Invocation {
    type V = InvocationView;

    open spec fn view(&self) -> InvocationView {
        InvocationView { program: self.program@, args: texts(self.args@), capture: self.capture }
    }
}

/// What the driver has to do for one command line.
#[derive(Debug)]
pub enum Action {
    /// Write `text` to the sink. No program is started.
    Emit { text: String },
    /// Start the program, wait until it has ended, and deliver its output.
    Spawn { invocation: Invocation },
}

/// An [`Action`] as sequences of characters.
pub enum ActionView {
    Emit { text: Seq<char> },
    Spawn { invocation: InvocationView },
}

impl View for Action {
    type V = ActionView;

    open spec fn view(&self) -> ActionView {
        match *self {
            Action::Emit { text } => ActionView::Emit { text: text@ },
            Action::Spawn { invocation } => ActionView::Spawn { invocation: invocation@ },
        }
    }
}

/// What the driver saw when it carried an [`Action`] out.
#[derive(Debug)]
pub enum Outcome {
    /// The program could not be started.
    NotSpawned { err: std::io::Error },
    /// The action was carried out to its end.
    Finished {
        /// False where what was to be written could not be written to the
        /// sink.
        delivered: bool,
        /// False where a program left with a status other than success.
        success: bool,
    },
}

/// What a command line turns into on the console: itself and a line feed.
pub open spec fn echoed(command: Seq<char>) -> Seq<char> {
    command.push('\n')
}

/// The shell that runs a command line, before the command line is added.
pub open spec fn shell(capture: bool) -> InvocationView {
    InvocationView { program: "sh"@, args: seq!["-c"@], capture }
}

/// The shell, asked to run `command` as one argument.
pub open spec fn shell_running(command: Seq<char>, capture: bool) -> InvocationView {
    InvocationView { program: "sh"@, args: seq!["-c"@, command], capture }
}

/// What executing `command` asks of the driver: in display mode to write the
/// command itself, otherwise to run it in a shell.
pub open spec fn action_for(display: bool, out: OutputDiscipline, command: Seq<char>) -> ActionView {
    if display {
        ActionView::Emit { text: echoed(command) }
    } else {
        ActionView::Spawn { invocation: shell_running(command, out is Captured) }
    }
}

/// Whether `command` has succeeded, given what the driver saw. In display
/// mode it always has. Otherwise it has only if the program was started, its
/// output was delivered and it ended with success; output that could not be
/// delivered is reported whatever the exit status was.
pub open spec fn judged(display: bool, command: Seq<char>, outcome: Outcome) -> Result<
    (),
    CommandErrorView,
> {
    if display {
        Ok(())
    } else {
        match outcome {
            Outcome::NotSpawned { err } => Err(CommandErrorView::ExecutionError { err, command }),
            Outcome::Finished { delivered, success } => if !delivered {
                Err(CommandErrorView::PipeOutput)
            } else if !success {
                Err(CommandErrorView::Failed { command })
            } else {
                Ok(())
            },
        }
    }
}

/// A verdict with its error, if any, as a [`CommandErrorView`].
pub open spec fn verdict_view(verdict: Result<(), CommandError>) -> Result<(), CommandErrorView> {
    match verdict {
        Ok(()) => Ok(()),
        Err(e) => Err(e@),
    }
}

impl Executer {
    /// Creates a new [`Executer`].
    pub fn new(display: bool, out: OutputDiscipline) -> (executer: Self)
        ensures
            executer == (Executer { display, out }),
    {
        Self { display, out }
    }

    /// Returns a pre-configured invocation, to be given the command line and
    /// then started.
    fn generate_command(&self) -> (invocation: Invocation)
        ensures
            invocation@ == shell(self.out is Captured),
    {
        let mut args: Vec<String> = Vec::new();
        args.push(String::from_str("-c"));
        let capture = match self.out {
            OutputDiscipline::Captured => true,
            OutputDiscipline::Streamed => false,
        };
        let invocation = Invocation { program: String::from_str("sh"), args, capture };
        assert(invocation@.args =~= seq!["-c"@]);
        invocation
    }

    /// What executing `command` asks of the driver.
    ///
    /// In display mode no program is ever asked for: the command line itself
    /// is to be written, followed by a line feed.
    pub fn action(&self, command: &str) -> (action: Action)
        ensures
            action@ == action_for(self.display, self.out, command@),
            self.display ==> action is Emit,
    {
        if self.display {
            let text = String::from_str(command).concat("\n");
            proof {
                reveal_strlit("\n");
                assert(text@ =~= echoed(command@));
            }
            Action::Emit { text }
        } else {
            let mut invocation = self.generate_command();
            let ghost flag = invocation.args@;
            assert(texts(flag).len() == 1 && texts(flag)[0] == "-c"@);
            invocation.args.push(String::from_str(command));
            assert(invocation@.args =~= seq!["-c"@, command@]);
            Action::Spawn { invocation }
        }
    }

    /// Judges `command` by what the driver saw when it carried the action for
    /// it out.
    pub fn judge(&self, command: &str, outcome: Outcome) -> (verdict: Result<(), CommandError>)
        ensures
            verdict_view(verdict) == judged(self.display, command@, outcome),
    {
        if self.display {
            return Ok(());
        }
        match outcome {
            Outcome::NotSpawned { err } => Err(
                CommandError::ExecutionError { err, command: String::from_str(command) },
            ),
            Outcome::Finished { delivered, success } => {
                if !delivered {
                    Err(CommandError::PipeOutput)
                } else if !success {
                    Err(CommandError::Failed { command: String::from_str(command) })
                } else {
                    Ok(())
                }
            },
        }
    }
}

} // verus!
