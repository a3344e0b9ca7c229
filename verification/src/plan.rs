//! Which command lines a switch takes, and in which order.
//!
//! The identity and the path are put into the command lines as they are:
//! nothing is escaped for the shell.

use vstd::prelude::*;
use vstd::string::*;

use crate::options::expand;
use crate::options::parsed::SwitchTarget;
use crate::options::ToSwitch;
use crate::texts;
use crate::Config;
use crate::ConfigView;

verus! {

/// Tells the user why a password is about to be asked for.
pub open spec fn privilege_notice() -> Seq<char> {
    "echo 'Sudo perms required for system rebuild.'"@
}

/// Does nothing, with elevated privileges: the password is asked for here,
/// before any long step.
pub open spec fn privilege_probe() -> Seq<char> {
    "sudo echo 'Sudo perms given for system rebuild.'"@
}

/// Updates the lock file of the configuration at `path`.
pub open spec fn update_command(path: Seq<char>) -> Seq<char> {
    "nix flake update --flake "@ + path
}

/// Applies the user environment `identity` of the configuration at `path`.
pub open spec fn home_command(path: Seq<char>, identity: Seq<char>) -> Seq<char> {
    "home-manager switch --flake "@ + path + "#"@ + identity
}

/// What is added to a system rebuild that must not fetch anything.
pub open spec fn offline_flag() -> Seq<char> {
    " --offline"@
}

/// Applies the system `identity` of the configuration at `path`, with
/// elevated privileges.
pub open spec fn system_command(path: Seq<char>, identity: Seq<char>, offline: bool) -> Seq<char> {
    let online =
        "sudo nixos-rebuild --option experimental-features 'nix-command flakes pipe-operators' switch --flake "@
        + path + "#"@ + identity;
    if offline {
        online + offline_flag()
    } else {
        online
    }
}

/// The command line that applies `target`.
pub open spec fn apply_command(config: ConfigView, target: ToSwitch) -> Seq<char> {
    match target {
        ToSwitch::Home => home_command(config.nix_path, config.identity),
        ToSwitch::System { offline } => system_command(config.nix_path, config.identity, offline),
    }
}

/// Whether any of `targets` is the system, wherever it stands.
pub open spec fn switches_system(targets: Seq<ToSwitch>) -> bool {
    exists|i: int| 0 <= i < targets.len() && #[trigger] targets[i] is System
}

/// What is run before anything else: the two privilege commands if the
/// system is among the targets, otherwise nothing.
pub open spec fn preflight(targets: Seq<ToSwitch>) -> Seq<Seq<char>> {
    if switches_system(targets) {
        seq![privilege_notice(), privilege_probe()]
    } else {
        seq![]
    }
}

/// The update of the lock file, if it was asked for.
pub open spec fn refresh(path: Seq<char>, update: bool) -> Seq<Seq<char>> {
    if update {
        seq![update_command(path)]
    } else {
        seq![]
    }
}

/// One command line for each of `targets`, in their order: none is left out
/// and none is moved.
pub open spec fn applies(config: ConfigView, targets: Seq<ToSwitch>) -> Seq<Seq<char>> {
    Seq::new(targets.len(), |i: int| apply_command(config, targets[i]))
}

/// The command lines of a switch, in the order in which they are run.
pub open spec fn switch_plan(config: ConfigView, targets: Seq<ToSwitch>, update: bool) -> Seq<
    Seq<char>,
> {
    preflight(targets) + refresh(config.nix_path, update) + applies(config, targets)
}

/// Whether any of `targets` is the system.
pub fn needs_privileges(targets: &[ToSwitch]) -> (needed: bool)
    ensures
        needed == switches_system(targets@),
{
    let mut i: usize = 0;
    while i < targets.len()
        invariant
            i <= targets.len(),
            forall|j: int| 0 <= j < i ==> !(#[trigger] targets@[j] is System),
        decreases targets.len() - i,
    {
        match targets[i] {
            ToSwitch::System { .. } => {
                return true;
            },
            ToSwitch::Home => {},
        }
        i += 1;
    }
    false
}

/// The command line that updates the lock file of `config`.
pub fn update_line(config: &Config) -> (line: String)
    ensures
        line@ == update_command(config@.nix_path),
{
    String::from_str("nix flake update --flake ").concat(config.nix_path.as_str())
}

/// The command line that applies `target` of `config`.
pub fn apply_line(config: &Config, target: ToSwitch) -> (line: String)
    ensures
        line@ == apply_command(config@, target),
{
    match target {
        ToSwitch::Home => {
            String::from_str("home-manager switch --flake ").concat(
                config.nix_path.as_str(),
            ).concat("#").concat(config.identity.as_str())
        },
        ToSwitch::System { offline } => {
            let online = String::from_str(
                "sudo nixos-rebuild --option experimental-features 'nix-command flakes pipe-operators' switch --flake ",
            ).concat(config.nix_path.as_str()).concat("#").concat(config.identity.as_str());
            if offline {
                online.concat(" --offline")
            } else {
                online
            }
        },
    }
}

/// The command lines of a switch of `targets`, in the order in which they
/// are run. An empty `targets` is in order: then only the update is left, if
/// it was asked for.
pub fn switch_commands(config: &Config, targets: &[ToSwitch], update: bool) -> (commands: Vec<
    String,
>)
    ensures
        texts(commands@) == switch_plan(config@, targets@, update),
{
    let mut commands: Vec<String> = Vec::new();
    if needs_privileges(targets) {
        commands.push(String::from_str("echo 'Sudo perms required for system rebuild.'"));
        commands.push(String::from_str("sudo echo 'Sudo perms given for system rebuild.'"));
    }
    if update {
        commands.push(update_line(config));
    }
    let ghost head = preflight(targets@) + refresh(config@.nix_path, update);
    assert(texts(commands@) =~= head);
    let mut i: usize = 0;
    while i < targets.len()
        invariant
            i <= targets.len(),
            texts(commands@) =~= head + applies(config@, targets@.take(i as int)),
        decreases targets.len() - i,
    {
        let line = apply_line(config, targets[i]);
        let ghost before = commands@;
        let ghost text = line@;
        commands.push(line);
        proof {
            let done = targets@.take(i as int);
            assert(texts(commands@) =~= texts(before).push(text));
            assert(targets@.take(i + 1) =~= done.push(targets@[i as int]));
            assert(applies(config@, done.push(targets@[i as int])) =~= applies(config@, done).push(
                text,
            ));
        }
        i += 1;
    }
    assert(targets@.take(i as int) =~= targets@);
    commands
}

/// A switch of the home alone, without an update, takes exactly one command:
/// the one that applies the home, made of the path and the identity of the
/// settings. No privilege command is run.
pub proof fn home_alone_takes_one_command(config: Config)
    ensures
        switch_plan(config@, seq![ToSwitch::Home], false) == seq![
            home_command(config@.nix_path, config@.identity),
        ],
{
    let targets = seq![ToSwitch::Home];
    assert(!switches_system(targets));
    assert(switch_plan(config@, targets, false) =~= seq![
        home_command(config@.nix_path, config@.identity),
    ]);
}

/// A switch of the home alone, with an update, takes exactly two commands:
/// the update first, then the one that applies the home.
pub proof fn home_with_update_takes_two_commands(config: Config)
    ensures
        switch_plan(config@, seq![ToSwitch::Home], true) == seq![
            update_command(config@.nix_path),
            home_command(config@.nix_path, config@.identity),
        ],
{
    let targets = seq![ToSwitch::Home];
    assert(!switches_system(targets));
    assert(switch_plan(config@, targets, true) =~= seq![
        update_command(config@.nix_path),
        home_command(config@.nix_path, config@.identity),
    ]);
}

/// Where the system is among the targets, at whatever place `at`, the two
/// privilege commands are the first two of the switch, and they are there
/// once: the rest is the update, if asked for, and one command per target.
pub proof fn system_puts_privileges_first(
    config: Config,
    targets: Seq<ToSwitch>,
    update: bool,
    at: int,
)
    requires
        0 <= at < targets.len(),
        targets[at] is System,
    ensures
        switch_plan(config@, targets, update).len() == 2 + refresh(config@.nix_path, update).len()
            + targets.len(),
        switch_plan(config@, targets, update)[0] == privilege_notice(),
        switch_plan(config@, targets, update)[1] == privilege_probe(),
        switch_plan(config@, targets, update).skip(2) == refresh(config@.nix_path, update)
            + applies(config@, targets),
{
    assert(switches_system(targets));
    assert(switch_plan(config@, targets, update).skip(2) =~= refresh(config@.nix_path, update)
        + applies(config@, targets));
}

/// A switch that leaves the system alone starts with no privilege command:
/// it is the update, if asked for, and one command per target.
pub proof fn home_needs_no_privileges(config: Config, targets: Seq<ToSwitch>, update: bool)
    requires
        forall|i: int| 0 <= i < targets.len() ==> targets[i] is Home,
    ensures
        switch_plan(config@, targets, update) == refresh(config@.nix_path, update) + applies(
            config@,
            targets,
        ),
{
    assert(!switches_system(targets));
    assert(switch_plan(config@, targets, update) =~= refresh(config@.nix_path, update) + applies(
        config@,
        targets,
    ));
}

/// The targets are applied in the order given, each of them once for each
/// time it was given: the command of the target at place `i` stands `i`
/// places behind the privilege commands and the update.
pub proof fn targets_keep_their_order(
    config: Config,
    targets: Seq<ToSwitch>,
    update: bool,
    i: int,
)
    requires
        0 <= i < targets.len(),
    ensures
        switch_plan(config@, targets, update).len() == preflight(targets).len() + refresh(
            config@.nix_path,
            update,
        ).len() + targets.len(),
        switch_plan(config@, targets, update)[preflight(targets).len() + refresh(
            config@.nix_path,
            update,
        ).len() + i] == apply_command(config@, targets[i]),
{
}

/// The command of an offline system switch is that of the online one with
/// the offline flag behind it, and the online one ends with the identity:
/// it bears no flag.
pub proof fn offline_adds_the_flag(config: Config)
    ensures
        apply_command(config@, ToSwitch::System { offline: true }) == apply_command(
            config@,
            ToSwitch::System { offline: false },
        ) + offline_flag(),
        offline_flag().len() == 10,
        apply_command(config@, ToSwitch::System { offline: false }) == system_command(
            config@.nix_path,
            Seq::empty(),
            false,
        ) + config@.identity,
{
    reveal_strlit(" --offline");
    assert(system_command(config@.nix_path, Seq::empty(), false) + config@.identity
        =~= apply_command(config@, ToSwitch::System { offline: false }));
}

/// A switch of no target, without an update, takes no command.
pub proof fn nothing_asked_takes_no_command(config: Config)
    ensures
        switch_plan(config@, Seq::<ToSwitch>::empty(), false) == Seq::<Seq<char>>::empty(),
{
    let targets = Seq::<ToSwitch>::empty();
    assert(!switches_system(targets));
    assert(switch_plan(config@, targets, false) =~= Seq::<Seq<char>>::empty());
}

/// A switch of both switches the system, without fetching anything, and
/// then the home, behind the two privilege commands and the update, if it was
/// asked for.
pub proof fn both_switches_system_then_home(config: Config, update: bool)
    ensures
        switch_plan(config@, expand(SwitchTarget::Both), update) == seq![
            privilege_notice(),
            privilege_probe(),
        ] + refresh(config@.nix_path, update) + seq![
            system_command(config@.nix_path, config@.identity, true),
            home_command(config@.nix_path, config@.identity),
        ],
{
    let targets = expand(SwitchTarget::Both);
    assert(targets[0] is System);
    assert(switches_system(targets));
    assert(applies(config@, targets) =~= seq![
        system_command(config@.nix_path, config@.identity, true),
        home_command(config@.nix_path, config@.identity),
    ]);
}

} // verus!
