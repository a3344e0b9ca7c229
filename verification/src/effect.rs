//! What an operation comes to, given the settings: what is to be printed,
//! stored or run. Printing, storing and running are left to the caller.

use vstd::prelude::*;
use vstd::string::*;

use crate::command_builder::Executer;
use crate::command_builder::OutputDiscipline;
use crate::options::ConfigPath;
use crate::options::Identity;
use crate::options::Operation;
use crate::plan::switch_plan;
use crate::run::SwitchRun;
use crate::run::SwitchRunView;
use crate::path_text;
use crate::switch;
use crate::trimmed;
use crate::trims;
use crate::Config;
use crate::ConfigView;
use crate::Errors;
use crate::LOGO;

verus! {

/// What the caller has to do for an operation.
#[derive(Debug)]
pub enum Effect {
    /// Carry out the run.
    Switch { run: SwitchRun },
    /// Print `text` as a line.
    Print { text: String },
    /// Print `before`, if there is one; store `config` as the settings; then,
    /// if that worked, print `after`, if there is one.
    Store { before: Option<String>, config: Config, after: Option<String> },
    /// Find out where `path` leads, and hand what was found to [`resolved`].
    Resolve { path: std::path::PathBuf },
}

/// An [`Effect`] as sequences of characters.
pub enum EffectView {
    Switch { run: SwitchRunView },
    Print { text: Seq<char> },
    Store { before: Option<Seq<char>>, config: ConfigView, after: Option<Seq<char>> },
    Resolve { path: std::path::PathBuf },
}

/// A line that may be there, as a sequence of characters.
pub open spec fn line_view(line: Option<String>) -> Option<Seq<char>> {
    match line {
        Some(text) => Some(text@),
        None => None,
    }
}

impl View for Effect {
    type V = EffectView;

    open spec fn view(&self) -> EffectView {
        match *self {
            Effect::Switch { run } => EffectView::Switch { run: run@ },
            Effect::Print { text } => EffectView::Print { text: text@ },
            Effect::Store { before, config, after } => EffectView::Store {
                before: line_view(before),
                config: config@,
                after: line_view(after),
            },
            Effect::Resolve { path } => EffectView::Resolve { path },
        }
    }
}

/// A value of the settings as it is shown: alone if `raw` is set, otherwise
/// behind its `label`.
pub open spec fn shown(label: Seq<char>, value: Seq<char>, raw: bool) -> Seq<char> {
    if raw {
        value
    } else {
        label + value
    }
}

/// What the user is told when the settings are made for the first time.
pub open spec fn first_run_notice(nix_path: Seq<char>) -> Seq<char> {
    "Set '"@ + nix_path + "' as path to 'flake.nix' file.\nTo change see 'identity' sub command"@
}

/// What `operation` comes to under the settings `config`.
///
/// A switch run from the command line leaves the output of its commands on
/// the console. A new identity is stored without the white space at its
/// ends, between a line with the old one and a line with the new one. A new
/// identity that is empty, or white space alone, is not taken: the old one
/// is stored again and shown in both lines.
pub open spec fn response(config: ConfigView, operation: Operation) -> EffectView {
    match operation {
        Operation::Switch { switch } => EffectView::Switch {
            run: SwitchRunView::start(
                switch.display_command,
                OutputDiscipline::Streamed,
                switch_plan(config, switch.targets@, switch.update),
            ),
        },
        Operation::Identity { operation: Identity::Get { raw } } => EffectView::Print {
            text: shown("Identity: "@, config.identity, raw),
        },
        Operation::Identity { operation: Identity::Assign { identity } } => EffectView::Store {
            before: Some("Old identity: "@ + config.identity),
            config: ConfigView {
                identity: Config::new_identity(config.identity, trimmed(identity@)),
                nix_path: config.nix_path,
            },
            after: Some(
                "New identity: "@ + Config::new_identity(config.identity, trimmed(identity@)),
            ),
        },
        Operation::Path { operation: ConfigPath::Get { raw } } => EffectView::Print {
            text: shown("Nix Path: "@, config.nix_path, raw),
        },
        Operation::Path { operation: ConfigPath::Assign { path } } => EffectView::Resolve { path },
        Operation::Logo => EffectView::Print { text: LOGO@ },
    }
}

/// `value` as it is shown: alone if `raw` is set, otherwise behind `label`.
fn show(label: &str, value: &str, raw: bool) -> (text: String)
    ensures
        text@ == shown(label@, value@, raw),
{
    if raw {
        String::from_str(value)
    } else {
        String::from_str(label).concat(value)
    }
}

/// What the caller has to do for `operation` under the settings `config`.
pub fn respond(config: &Config, operation: Operation) -> (effect: Effect)
    ensures
        effect@ == response(config@, operation),
        effect matches Effect::Switch { run } ==> run@.wf(),
        operation matches Operation::Identity { operation: Identity::Assign { identity } }
            ==> trims(identity@, trimmed(identity@)),
{
    match operation {
        Operation::Switch { switch: request } => {
            let executer = Executer::new(request.display_command, OutputDiscipline::Streamed);
            Effect::Switch {
                run: switch(config, request.targets.as_slice(), request.update, executer),
            }
        },
        Operation::Identity { operation: Identity::Get { raw } } => Effect::Print {
            text: show("Identity: ", config.identity.as_str(), raw),
        },
        Operation::Identity { operation: Identity::Assign { identity } } => {
            let before = String::from_str("Old identity: ").concat(config.identity.as_str());
            let config = config.with_identity(identity.as_str());
            let after = String::from_str("New identity: ").concat(config.identity.as_str());
            Effect::Store { before: Some(before), config, after: Some(after) }
        },
        Operation::Path { operation: ConfigPath::Get { raw } } => Effect::Print {
            text: show("Nix Path: ", config.nix_path.as_str(), raw),
        },
        Operation::Path { operation: ConfigPath::Assign { path } } => Effect::Resolve { path },
        Operation::Logo => Effect::Print { text: String::from_str(LOGO) },
    }
}

/// What the caller has to do when no settings are stored yet and `config`
/// holds those of a first run: store them, and then say which path was set.
pub fn first_run(config: Config) -> (effect: Effect)
    ensures
        effect@ == (EffectView::Store {
            before: None,
            config: config@,
            after: Some(first_run_notice(config@.nix_path)),
        }),
        config@.named() ==> (effect@ matches EffectView::Store { config: stored, .. }
            && stored.named()),
{
    let after = String::from_str("Set '").concat(config.nix_path.as_str()).concat(
        "' as path to 'flake.nix' file.\nTo change see 'identity' sub command",
    );
    Effect::Store { before: None, config, after: Some(after) }
}

/// What the caller has to do once it has found out where the new path to
/// the nix configuration leads, `found` being the path in full or the reason
/// why there is none.
///
/// A path that leads nowhere and a path that is not text are refused, the
/// first with the reason given. Any other path is stored as the new path,
/// with the identity as it was, and nothing is printed.
pub fn resolved(
    config: &Config,
    found: Result<std::path::PathBuf, std::io::Error>,
) -> (result: Result<Effect, Errors>)
    ensures
        match found {
            Err(reason) => result matches Err(error) && error == (Errors::InvalidPath {
                error: reason,
            }),
            Ok(path) => match path_text(path) {
                None => result matches Err(error) && error is NotUTFPath,
                Some(text) => result matches Ok(effect) && effect@ == (EffectView::Store {
                    before: None,
                    config: ConfigView { identity: config@.identity, nix_path: text },
                    after: None,
                }),
            },
        },
        config@.named() ==> (result matches Ok(effect) ==> effect@ matches EffectView::Store {
            config: stored,
            ..
        } && stored.named()),
{
    match found {
        Err(reason) => Err(Errors::InvalidPath { error: reason }),
        Ok(path) => match config.with_path(path) {
            Ok(config) => Ok(Effect::Store { before: None, config, after: None }),
            Err(error) => Err(error),
        },
    }
}

/// Settings that name the machine stay that way whatever is asked for: no
/// operation has settings with an empty identity stored.
pub proof fn stored_identity_is_never_empty(config: Config, operation: Operation)
    requires
        config@.named(),
    ensures
        response(config@, operation) matches EffectView::Store { config: stored, .. }
            ==> stored.named(),
{
}

} // verus!
