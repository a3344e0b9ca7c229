//! The command line as it was typed, one value per subcommand, before it is
//! turned into a [`Task`](crate::options::Task).

use vstd::prelude::*;

verus! {

/// What the user asked for on the command line.
#[allow(inconsistent_fields)]
#[derive(Debug)]
pub enum CLIArgs {
    /// Rebuild and switch the system with the current identity.
    Switch { args: SwitchArgs },
    /// The identity of the nix configuration to use.
    Identity { operation: IdentityOptions },
    /// The path to the nix configuration.
    Path { operation: PathOption },
    /// Displays the logo.
    Logo,
    /// Writes the shell completions for the given shell.
    Completions { shell: clap_complete::Shell },
}

/// The `identity` subcommand.
#[derive(Debug)]
pub enum IdentityOptions {
    /// Set the identity of the configuration.
    Assign { identity: String },
    /// Get the identity of the configuration.
    Get {
        /// Display the raw config value.
        raw: bool,
    },
}

/// The `path` subcommand.
#[derive(Debug)]
pub enum PathOption {
    /// Sets the path to the nix configuration.
    Assign { path: std::path::PathBuf },
    /// Gets the absolute path of the nix configuration.
    Get {
        /// Display the raw config value.
        raw: bool,
    },
}

/// The `switch` subcommand with its flags.
#[derive(Clone, Copy, Debug)]
pub struct SwitchArgs {
    pub target: SwitchTarget,
    /// Display the switch commands instead of executing them.
    pub display_command: bool,
    /// Update the lock file as well as rebuilding.
    pub update: bool,
}

/// What `switch` is asked to rebuild.
#[derive(Clone, Copy, Debug, PartialEq, Eq, Structural)]
pub enum SwitchTarget {
    /// Perform a home-manager switch.
    Home,
    /// Perform a system switch.
    System {
        /// Switch system without downloading any more data.
        offline: bool,
    },
    /// Switches the system and then home-manager.
    Both,
}

} // verus!
