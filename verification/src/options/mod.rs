//! The tasks this program can be asked to do, and how the parsed command line
//! maps onto them.

use vstd::prelude::*;

use crate::options::parsed::{CLIArgs, IdentityOptions, PathOption, SwitchArgs, SwitchTarget};

pub mod parsed;

verus! {

/// `clap_complete::Shell`: the shell to write completions for. The library
/// only carries the value from the command line to the completion generator.
#[verifier::external_type_specification]
#[verifier::external_body]
pub struct ExShell(clap_complete::Shell);

/// `std::path::PathBuf`: a path as the operating system holds it, which need
/// not be text. Nothing inside it is visible to the proofs.
#[verifier::external_type_specification]
#[verifier::external_body]
pub struct ExPathBuf(std::path::PathBuf);

/// What one invocation of the program has to do.
#[derive(Debug)]
pub enum Task {
    /// Write the completions for `shell`.
    Completion { shell: clap_complete::Shell },
    /// Carry out `option` under the stored settings.
    Command { option: Operation },
}

/// What the program can do under the stored settings.
#[allow(inconsistent_fields)]
#[derive(Debug)]
pub enum Operation {
    /// Rebuild and switch the system with the current identity.
    Switch { switch: Switch },
    /// The identity of the nix configuration to use.
    Identity { operation: Identity },
    /// The path to the nix configuration.
    Path { operation: ConfigPath },
    /// Displays the logo.
    Logo,
}

/// Switch configuration.
#[derive(Debug)]
pub struct Switch {
    /// The targets, in the order in which they are rebuilt.
    pub targets: Vec<ToSwitch>,
    /// Display the switch commands instead of executing them.
    pub display_command: bool,
    /// Update the lock file as well as rebuilding the system.
    pub update: bool,
}

/// Target to switch.
#[derive(Clone, Copy, Debug, PartialEq, Eq, Structural)]
pub enum ToSwitch {
    /// Perform a home-manager switch.
    Home,
    /// Perform a system switch.
    System {
        /// Switch system without downloading any more data.
        offline: bool,
    },
}

/// Which identity operation to perform.
#[derive(Debug)]
pub enum Identity {
    /// Set the identity of the configuration.
    Assign { identity: String },
    /// Get the identity of the configuration.
    Get {
        /// Display the raw config value.
        raw: bool,
    },
}

/// Which config path operation to perform.
#[derive(Debug)]
pub enum ConfigPath {
    /// Sets the path to the nix configuration.
    Assign { path: std::path::PathBuf },
    /// Gets the absolute path of the nix configuration.
    Get {
        /// Display the raw config value.
        raw: bool,
    },
}

/// The targets that a `switch` subcommand stands for, in the order in which
/// they are rebuilt: `both` is the system, offline, and then the home.
pub open spec fn expand(target: SwitchTarget) -> Seq<ToSwitch> {
    match target {
        SwitchTarget::Home => seq![ToSwitch::Home],
        SwitchTarget::System { offline } => seq![ToSwitch::System { offline }],
        SwitchTarget::Both => seq![ToSwitch::System { offline: true }, ToSwitch::Home],
    }
}

/// The identity operation that the subcommand `value` stands for.
pub open spec fn identity_of(value: IdentityOptions) -> Identity {
    match value {
        IdentityOptions::Assign { identity } => Identity::Assign { identity },
        IdentityOptions::Get { raw } => Identity::Get { raw },
    }
}

/// The path operation that the subcommand `value` stands for.
pub open spec fn config_path_of(value: PathOption) -> ConfigPath {
    match value {
        PathOption::Assign { path } => ConfigPath::Assign { path },
        PathOption::Get { raw } => ConfigPath::Get { raw },
    }
}

impl Switch {
    /// Whether this is what the flags `args` ask for.
    pub open spec fn reflects(self, args: SwitchArgs) -> bool {
        &&& self.targets@ == expand(args.target)
        &&& self.display_command == args.display_command
        &&& self.update == args.update
    }
}

impl Task {
    /// Whether this is what the command line `value` asks for.
    pub open spec fn reflects(self, value: CLIArgs) -> bool {
        match value {
            CLIArgs::Switch { args } => {
                &&& self matches Task::Command { option: Operation::Switch { switch } }
                &&& switch.reflects(args)
            },
            CLIArgs::Identity { operation } => self == Task::Command {
                option: Operation::Identity { operation: identity_of(operation) },
            },
            CLIArgs::Path { operation } => self == Task::Command {
                option: Operation::Path { operation: config_path_of(operation) },
            },
            CLIArgs::Logo => self == Task::Command { option: Operation::Logo },
            CLIArgs::Completions { shell } => self == Task::Completion { shell },
        }
    }
}

impl From<SwitchArgs> for Switch {
    fn from(value: SwitchArgs) -> (switch: Self)
        ensures
            switch.reflects(value),
    {
        let mut targets: Vec<ToSwitch> = Vec::new();
        match value.target {
            SwitchTarget::Home => targets.push(ToSwitch::Home),
            SwitchTarget::System { offline } => targets.push(ToSwitch::System { offline }),
            SwitchTarget::Both => {
                targets.push(ToSwitch::System { offline: true });
                targets.push(ToSwitch::Home);
            },
        };
        assert(targets@ =~= expand(value.target));
        Switch { targets, display_command: value.display_command, update: value.update }
    }
}

/// A `Switch` holds a `Vec`, which only executable code can build: what
/// `from` returns is stated by [`Switch::reflects`].
impl vstd::std_specs::convert::FromSpecImpl<SwitchArgs> for Switch {
    open spec fn obeys_from_spec() -> bool {
        false
    }

    open spec fn from_spec(value: SwitchArgs) -> Self {
        arbitrary()
    }
}

impl From<IdentityOptions> for Identity {
    fn from(value: IdentityOptions) -> (operation: Self)
        ensures
            operation == identity_of(value),
    {
        match value {
            IdentityOptions::Assign { identity } => Identity::Assign { identity },
            IdentityOptions::Get { raw } => Identity::Get { raw },
        }
    }
}

impl vstd::std_specs::convert::FromSpecImpl<IdentityOptions> for Identity {
    open spec fn obeys_from_spec() -> bool {
        true
    }

    open spec fn from_spec(value: IdentityOptions) -> Self {
        identity_of(value)
    }
}

impl From<PathOption> for ConfigPath {
    fn from(value: PathOption) -> (operation: Self)
        ensures
            operation == config_path_of(value),
    {
        match value {
            PathOption::Assign { path } => ConfigPath::Assign { path },
            PathOption::Get { raw } => ConfigPath::Get { raw },
        }
    }
}

impl vstd::std_specs::convert::FromSpecImpl<PathOption> for ConfigPath {
    open spec fn obeys_from_spec() -> bool {
        true
    }

    open spec fn from_spec(value: PathOption) -> Self {
        config_path_of(value)
    }
}

impl From<CLIArgs> for Task {
    fn from(value: CLIArgs) -> (task: Self)
        ensures
            task.reflects(value),
    {
        match value {
            CLIArgs::Switch { args } => Task::Command {
                option: Operation::Switch { switch: Switch::from(args) },
            },
            CLIArgs::Identity { operation } => Task::Command {
                option: Operation::Identity { operation: Identity::from(operation) },
            },
            CLIArgs::Path { operation } => Task::Command {
                option: Operation::Path { operation: ConfigPath::from(operation) },
            },
            CLIArgs::Logo => Task::Command { option: Operation::Logo },
            CLIArgs::Completions { shell } => Task::Completion { shell },
        }
    }
}

/// A `Task` may hold a `Vec`, which only executable code can build: what
/// `from` returns is stated by [`Task::reflects`].
impl vstd::std_specs::convert::FromSpecImpl<CLIArgs> for Task {
    open spec fn obeys_from_spec() -> bool {
        false
    }

    open spec fn from_spec(value: CLIArgs) -> Self {
        arbitrary()
    }
}

} // verus!
