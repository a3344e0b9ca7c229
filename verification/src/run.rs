//! A switch under way: the planned command lines, how far they have come,
//! and whether one of them has failed.
//!
//! The commands are run one after the other. The run asks for the action of
//! the command that is next, is told what happened, and goes on to the
//! following command only if that one succeeded. After the first failure it
//! asks for nothing more.

use vstd::prelude::*;
use vstd::string::*;

use crate::command_builder::action_for;
use crate::command_builder::echoed;
use crate::command_builder::judged;
use crate::command_builder::Action;
use crate::command_builder::ActionView;
use crate::command_builder::CommandErrorView;
use crate::command_builder::Executer;
use crate::command_builder::Outcome;
use crate::command_builder::OutputDiscipline;
use crate::texts;
use crate::Errors;

verus! {

/// How far a run has come.
#[derive(Clone, Copy, Debug, PartialEq, Eq, Structural)]
pub enum Status {
    /// A command is waiting to be carried out.
    Pending,
    /// Every command has succeeded.
    Succeeded,
    /// A command has failed; those after it were not run.
    Failed,
}

/// A switch under way.
#[derive(Debug)]
pub struct SwitchRun {
    executer: Executer,
    /// The command lines, in the order in which they are run.
    commands: Vec<String>,
    /// How many of them have succeeded.
    position: usize,
    /// Whether the command at `position` has failed.
    failed: bool,
}

/// What a [`SwitchRun`] stands for.
pub struct SwitchRunView {
    /// Whether the commands are displayed rather than run.
    pub display: bool,
    /// Where the output of the commands goes.
    pub out: OutputDiscipline,
    /// The command lines, in the order in which they are run.
    pub commands: Seq<Seq<char>>,
    /// How many of them have succeeded.
    pub position: nat,
    /// Whether the command at `position` has failed.
    pub failed: bool,
}

impl SwitchRunView {
    /// No more commands have succeeded than there are.
    pub open spec fn wf(self) -> bool {
        self.position <= self.commands.len()
    }

    /// The run of `commands` before anything has been done.
    pub open spec fn start(
        display: bool,
        out: OutputDiscipline,
        commands: Seq<Seq<char>>,
    ) -> SwitchRunView {
        SwitchRunView { display, out, commands, position: 0, failed: false }
    }

    /// Whether a command is waiting to be carried out, has failed, or none is
    /// left.
    pub open spec fn status(self) -> Status {
        if self.failed {
            Status::Failed
        } else if self.position < self.commands.len() {
            Status::Pending
        } else {
            Status::Succeeded
        }
    }

    /// The command line that is next, while one is waiting.
    pub open spec fn current(self) -> Seq<char> {
        self.commands[self.position as int]
    }

    /// What the driver has to do next, or nothing once the run has ended.
    pub open spec fn pending(self) -> Option<ActionView> {
        if self.status() is Pending {
            Some(action_for(self.display, self.out, self.current()))
        } else {
            None
        }
    }

    /// How the command that is next fares under `outcome`. An outcome that
    /// is reported when nothing is waiting changes nothing and is no failure.
    pub open spec fn verdict(self, outcome: Outcome) -> Result<(), CommandErrorView> {
        if self.status() is Pending {
            judged(self.display, self.current(), outcome)
        } else {
            Ok(())
        }
    }

    /// The run after `outcome` was reported for the command that is next: a
    /// success moves on to the following command, a failure ends the run.
    pub open spec fn after(self, outcome: Outcome) -> SwitchRunView {
        if self.status() is Pending {
            if self.verdict(outcome) is Ok {
                SwitchRunView { position: self.position + 1, ..self }
            } else {
                SwitchRunView { failed: true, ..self }
            }
        } else {
            self
        }
    }

    /// The run after each of `outcomes` was reported, in their order.
    pub open spec fn after_all(self, outcomes: Seq<Outcome>) -> SwitchRunView
        decreases outcomes.len(),
    {
        if outcomes.len() == 0 {
            self
        } else {
            self.after_all(outcomes.drop_last()).after(outcomes.last())
        }
    }
}

/// An action that may be asked for, as sequences of characters.
pub open spec fn asked(action: Option<Action>) -> Option<ActionView> {
    match action {
        Some(a) => Some(a@),
        None => None,
    }
}

impl View for SwitchRun {
    type V = SwitchRunView;

    closed spec fn view(&self) -> SwitchRunView {
        SwitchRunView {
            display: self.executer.display,
            out: self.executer.out,
            commands: texts(self.commands@),
            position: self.position as nat,
            failed: self.failed,
        }
    }
}

impl SwitchRun {
    #[verifier::type_invariant]
    spec fn counted(&self) -> bool {
        self.position <= self.commands.len()
    }

    /// A run of `commands`, of which none has been run yet.
    pub fn new(executer: Executer, commands: Vec<String>) -> (run: Self)
        ensures
            run@ == SwitchRunView::start(executer.display, executer.out, texts(commands@)),
            run@.wf(),
    {
        SwitchRun { executer, commands, position: 0, failed: false }
    }

    /// The executer that judges the commands of this run.
    pub fn executer(&self) -> (executer: Executer)
        ensures
            executer == (Executer { display: self@.display, out: self@.out }),
    {
        self.executer
    }

    /// How far the run has come.
    pub fn status(&self) -> (status: Status)
        ensures
            status == self@.status(),
            self@.wf(),
    {
        proof {
            use_type_invariant(self);
        }
        if self.failed {
            Status::Failed
        } else if self.position < self.commands.len() {
            Status::Pending
        } else {
            Status::Succeeded
        }
    }

    /// What the driver has to do next. `None` once every command has
    /// succeeded or one has failed.
    pub fn pending(&self) -> (action: Option<Action>)
        ensures
            asked(action) == self@.pending(),
            self@.wf(),
    {
        proof {
            use_type_invariant(self);
        }
        if !self.failed && self.position < self.commands.len() {
            Some(self.executer.action(self.commands[self.position].as_str()))
        } else {
            None
        }
    }

    /// Takes what the driver saw when it carried out the pending action.
    ///
    /// If the command succeeded the run goes on to the following command. If
    /// it failed the run has ended, none of the commands after it will be
    /// asked for, and the failure is returned. Reported while nothing is
    /// pending, `outcome` is dropped.
    pub fn resume(&mut self, outcome: Outcome) -> (result: Result<(), Errors>)
        ensures
            final(self)@ == old(self)@.after(outcome),
            final(self)@.wf(),
            match old(self)@.verdict(outcome) {
                Ok(()) => result is Ok,
                Err(failure) => result matches Err(error) && error.command_error() == Some(failure),
            },
    {
        proof {
            use_type_invariant(&*self);
        }
        if self.failed || self.position >= self.commands.len() {
            return Ok(());
        }
        match self.executer.judge(self.commands[self.position].as_str(), outcome) {
            Ok(()) => {
                self.position = self.position + 1;
                Ok(())
            },
            Err(failure) => {
                self.failed = true;
                Err(Errors::CommandError(failure))
            },
        }
    }
}

/// A run of no command has succeeded before anything is done, and asks for
/// nothing.
pub proof fn empty_run_has_succeeded(display: bool, out: OutputDiscipline)
    ensures
        SwitchRunView::start(display, out, Seq::empty()).status() == Status::Succeeded,
        SwitchRunView::start(display, out, Seq::empty()).pending() is None,
{
}

/// In display mode a run never asks for a program to be started: whatever
/// it asks for is to write the command that is next, followed by a line feed.
pub proof fn display_starts_no_program(run: SwitchRunView)
    requires
        run.display,
    ensures
        run.pending() matches Some(action) ==> action == (ActionView::Emit {
            text: echoed(run.current()),
        }),
{
}

/// In display mode a run asks for its commands to be written one after the
/// other, whatever is reported of them, and has succeeded once the last is
/// written.
pub proof fn display_writes_every_command(run: SwitchRunView, outcomes: Seq<Outcome>)
    requires
        run.display,
        run.position == 0,
        !run.failed,
        outcomes.len() <= run.commands.len(),
    ensures
        run.after_all(outcomes) == (SwitchRunView { position: outcomes.len(), ..run }),
        outcomes.len() < run.commands.len() ==> run.after_all(outcomes).pending() == Some(
            ActionView::Emit { text: echoed(run.commands[outcomes.len() as int]) },
        ),
        outcomes.len() == run.commands.len() ==> run.after_all(outcomes).status()
            == Status::Succeeded,
    decreases outcomes.len(),
{
    if outcomes.len() > 0 {
        display_writes_every_command(run, outcomes.drop_last());
    }
}

/// A command that fails ends the run: the failure is the verdict, the run
/// has failed where it stood, it asks for nothing more, and whatever is
/// reported later changes nothing. The commands behind the failed one are
/// never asked for.
pub proof fn failure_ends_the_run(run: SwitchRunView, outcome: Outcome, later: Seq<Outcome>)
    requires
        run.verdict(outcome) is Err,
    ensures
        run.after(outcome).status() == Status::Failed,
        run.after(outcome).position == run.position,
        run.after(outcome).pending() is None,
        run.after(outcome).after_all(later) == run.after(outcome),
    decreases later.len(),
{
    if later.len() > 0 {
        failure_ends_the_run(run, outcome, later.drop_last());
    }
}

/// While the reported outcomes are successes the run moves on by one
/// command for each of them, in the order of the commands.
pub proof fn successes_move_on(run: SwitchRunView, outcomes: Seq<Outcome>)
    requires
        run.position == 0,
        !run.failed,
        outcomes.len() <= run.commands.len(),
        forall|i: int|
            0 <= i < outcomes.len() ==> judged(run.display, run.commands[i], #[trigger] outcomes[i])
                is Ok,
    ensures
        run.after_all(outcomes) == (SwitchRunView { position: outcomes.len(), ..run }),
        outcomes.len() == run.commands.len() ==> run.after_all(outcomes).status()
            == Status::Succeeded,
    decreases outcomes.len(),
{
    if outcomes.len() > 0 {
        let earlier = outcomes.drop_last();
        assert forall|i: int| 0 <= i < earlier.len() implies judged(
            run.display,
            run.commands[i],
            #[trigger] earlier[i],
        ) is Ok by {
            assert(earlier[i] == outcomes[i]);
        }
        successes_move_on(run, earlier);
    }
}

/// The first command that fails decides the run. If the outcomes before
/// place `k` are successes and the one at `k` is a failure, the run has
/// failed at command `k`, with the verdict on that command, whatever was
/// reported behind it: the commands behind `k` are never asked for.
pub proof fn first_failure_decides(run: SwitchRunView, outcomes: Seq<Outcome>, k: int)
    requires
        run.position == 0,
        !run.failed,
        0 <= k < outcomes.len(),
        k < run.commands.len(),
        forall|i: int|
            0 <= i < k ==> judged(run.display, run.commands[i], #[trigger] outcomes[i]) is Ok,
        judged(run.display, run.commands[k], outcomes[k]) is Err,
    ensures
        run.after_all(outcomes) == (SwitchRunView { position: k as nat, failed: true, ..run }),
        run.after_all(outcomes.take(k)).verdict(outcomes[k]) == judged(
            run.display,
            run.commands[k],
            outcomes[k],
        ),
        run.after_all(outcomes).pending() is None,
{
    let before = outcomes.take(k);
    assert forall|i: int| 0 <= i < before.len() implies judged(
        run.display,
        run.commands[i],
        #[trigger] before[i],
    ) is Ok by {
        assert(before[i] == outcomes[i]);
    }
    successes_move_on(run, before);
    let reached = run.after_all(before);
    assert(reached.status() is Pending);
    assert(reached.current() == run.commands[k]);
    let upto = outcomes.take(k + 1);
    assert(upto.drop_last() =~= before);
    assert(upto.last() == outcomes[k]);
    assert(run.after_all(upto) == reached.after(outcomes[k]));
    failure_ends_the_run(reached, outcomes[k], outcomes.skip(k + 1));
    after_all_in_two(run, upto, outcomes.skip(k + 1));
    assert(upto + outcomes.skip(k + 1) =~= outcomes);
}

/// Reporting `first` and then `second` is reporting the two in one go.
pub proof fn after_all_in_two(run: SwitchRunView, first: Seq<Outcome>, second: Seq<Outcome>)
    ensures
        run.after_all(first + second) == run.after_all(first).after_all(second),
    decreases second.len(),
{
    if second.len() == 0 {
        assert(first + second =~= first);
    } else {
        after_all_in_two(run, first, second.drop_last());
        assert((first + second).drop_last() =~= first + second.drop_last());
        assert((first + second).last() == second.last());
    }
}

/// A command that succeeds moves the run on by one command, and only a
/// success does. In run mode a command succeeds only if its program was
/// started, its output delivered, and its exit status success.
pub proof fn success_moves_on(run: SwitchRunView, outcome: Outcome)
    requires
        run.wf(),
        run.status() is Pending,
    ensures
        run.after(outcome).wf(),
        run.verdict(outcome) is Ok <==> run.after(outcome).position == run.position + 1,
        run.verdict(outcome) is Ok <==> !run.after(outcome).failed,
        !run.display ==> (run.verdict(outcome) is Ok <==> outcome == (Outcome::Finished {
            delivered: true,
            success: true,
        })),
        !run.display && outcome == (Outcome::Finished { delivered: true, success: false })
            ==> run.verdict(outcome) == Err::<(), CommandErrorView>(
            CommandErrorView::Failed { command: run.current() },
        ),
{
}

} // verus!
