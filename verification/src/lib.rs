//! Decides which commands a switch of the system or of the user environment
//! takes, in which order, and how the outcome of each is judged.
//!
//! The library starts no program and touches no file. [`switch`] plans the
//! command lines and returns a [`SwitchRun`]; the caller carries out what the
//! run asks for, one action at a time, and tells it what happened.

use vstd::prelude::*;
use vstd::string::*;

use crate::command_builder::CommandError;
use crate::command_builder::CommandErrorView;
use crate::command_builder::Executer;
use crate::options::ToSwitch;
use crate::plan::nothing_asked_takes_no_command;
use crate::plan::switch_commands;
use crate::plan::switch_plan;
use crate::run::Status;
use crate::run::SwitchRun;
use crate::run::SwitchRunView;

pub mod command_builder;
pub mod effect;
pub mod options;
pub mod plan;
pub mod run;

verus! {

/// The name of the program, drawn in characters.
pub const LOGO: &'static str = r#"
------------------------------------------------------------------
 ______   __  __     ______           __   __     __     __  __
/\__  _\ /\ \_\ \   /\  ___\         /\ "-.\ \   /\ \   /\_\_\_\
\/_/\ \/ \ \____ \  \ \  __\         \ \ \-.  \  \ \ \  \/_/\_\/_
   \ \_\  \/\_____\  \ \_____\        \ \_\\"\_\  \ \_\   /\_\/\_\
    \/_/   \/_____/   \/_____/         \/_/ \/_/   \/_/   \/_/\/_/

------------------------------------------------------------------
"#;

/// `app_dirs2::AppDirsError`: why the directory of the settings file could
/// not be found or made. The library hands the value on unread.
#[verifier::external_type_specification]
#[verifier::external_body]
pub struct ExAppDirsError(app_dirs2::AppDirsError);

/// `serde_json::Error`: why the settings file could not be read as JSON, or
/// the settings not be written as JSON. The library hands the value on unread.
#[verifier::external_type_specification]
#[verifier::external_body]
pub struct ExJsonError(serde_json::Error);

/// The possible errors this program can encounter.
#[derive(Debug)]
pub enum Errors {
    /// The host is not a Linux system.
    NotLinux,
    /// The directory of the settings file could not be found or made.
    ConfigPath(app_dirs2::AppDirsError),
    /// The settings file at `path` could not be read.
    ConfigFileRead { path: std::path::PathBuf },
    /// The settings file does not hold settings.
    ConfigParse(serde_json::Error),
    /// The settings could not be written to `path`.
    ConfigWrite { path: std::path::PathBuf },
    /// The path given for the nix configuration does not lead anywhere.
    InvalidPath { error: std::io::Error },
    /// The path to the nix configuration has not been set.
    PathNotSet,
    /// The path to the nix configuration is not text.
    NotUTFPath,
    /// A command of a switch did not succeed.
    CommandError(CommandError),
    /// A subcommand is missing.
    NoCommand,
}

impl Errors {
    /// The failed command behind this error, if a command is behind it.
    pub open spec fn command_error(self) -> Option<CommandErrorView> {
        match self {
            Errors::CommandError(e) => Some(e@),
            _ => None,
        }
    }
}

impl From<CommandError> for Errors {
    fn from(value: CommandError) -> (error: Self)
        ensures
            error == Errors::CommandError(value),
    {
        Errors::CommandError(value)
    }
}

impl vstd::std_specs::convert::FromSpecImpl<CommandError> for Errors {
    open spec fn obeys_from_spec() -> bool {
        true
    }

    open spec fn from_spec(value: CommandError) -> Self {
        Errors::CommandError(value)
    }
}

impl From<app_dirs2::AppDirsError> for Errors {
    fn from(value: app_dirs2::AppDirsError) -> (error: Self)
        ensures
            error == Errors::ConfigPath(value),
    {
        Errors::ConfigPath(value)
    }
}

impl vstd::std_specs::convert::FromSpecImpl<app_dirs2::AppDirsError> for Errors {
    open spec fn obeys_from_spec() -> bool {
        true
    }

    open spec fn from_spec(value: app_dirs2::AppDirsError) -> Self {
        Errors::ConfigPath(value)
    }
}

impl From<serde_json::Error> for Errors {
    fn from(value: serde_json::Error) -> (error: Self)
        ensures
            error == Errors::ConfigParse(value),
    {
        Errors::ConfigParse(value)
    }
}

impl vstd::std_specs::convert::FromSpecImpl<serde_json::Error> for Errors {
    open spec fn obeys_from_spec() -> bool {
        true
    }

    open spec fn from_spec(value: serde_json::Error) -> Self {
        Errors::ConfigParse(value)
    }
}

/// The characters of each string of `strings`, in the same order.
pub open spec fn texts(strings: Seq<String>) -> Seq<Seq<char>> {
    Seq::new(strings.len(), |i: int| strings[i]@)
}

/// The persistent configuration data for this program.
///
/// The path is always there. On a first run it is the working directory, and
/// a switch takes whatever text it finds here: no value of the path means
/// "not set".
///
/// The identity is meant never to be empty. The settings of a first run have
/// one, and nothing in this library puts an empty identity in the place of
/// one that is not (see [`ConfigView::named`]).
#[derive(Debug)]
pub struct Config {
    /// The identity of this system.
    pub identity: String,
    /// The path to the nix configuration.
    pub nix_path: String,
}

/// A [`Config`] as sequences of characters.
pub struct ConfigView {
    pub identity: Seq<char>,
    pub nix_path: Seq<char>,
}

impl View for Config {
    type V = ConfigView;

    open spec fn view(&self) -> ConfigView {
        ConfigView { identity: self.identity@, nix_path: self.nix_path@ }
    }
}

impl Clone for Config {
    fn clone(&self) -> (copy: Self)
        ensures
            copy@ == self@,
    {
        Config { identity: self.identity.clone(), nix_path: self.nix_path.clone() }
    }
}

/// What is left of a text when the white space at both of its ends is taken
/// away, as `str::trim` does it.
pub uninterp spec fn trimmed(text: Seq<char>) -> Seq<char>;

/// Whether `c` is white space: nothing is left of it when it is trimmed.
pub open spec fn white_space(c: char) -> bool {
    trimmed(seq![c]).len() == 0
}

/// Whether `rest` is the part of `text` from place `from` up to place `to`,
/// with white space alone before and behind it and none at its two ends.
pub open spec fn cut_out(text: Seq<char>, rest: Seq<char>, from: int, to: int) -> bool {
    &&& 0 <= from <= to <= text.len()
    &&& rest == text.subrange(from, to)
    &&& forall|k: int| 0 <= k < from ==> white_space(#[trigger] text[k])
    &&& forall|k: int| to <= k < text.len() ==> white_space(#[trigger] text[k])
    &&& from < to ==> !white_space(text[from]) && !white_space(text[to - 1])
}

/// Whether `rest` is `text` without the white space at its two ends.
pub open spec fn trims(text: Seq<char>, rest: Seq<char>) -> bool {
    exists|from: int, to: int| cut_out(text, rest, from, to)
}

/// `str::trim`: the text without the white space at its two ends. The result
/// bears the name [`trimmed`]. It is one piece of the text; what stands
/// before and behind it is white space, and its own ends are not. Which
/// characters are white space is not listed here: a character is white space
/// if `str::trim` leaves nothing of it.
#[verifier::external_body]
fn trim<'a>(text: &'a str) -> (rest: &'a str)
    ensures
        rest@ == trimmed(text@),
        trims(text@, rest@),
{
    text.trim()
}

/// Nothing is left of a text by trimming if and only if white space is all
/// that it holds.
pub proof fn blank_is_white_space_alone(text: Seq<char>, rest: Seq<char>)
    requires
        trims(text, rest),
    ensures
        rest.len() == 0 <==> forall|i: int| 0 <= i < text.len() ==> white_space(#[trigger] text[i]),
{
    let (from, to) = choose|from: int, to: int| cut_out(text, rest, from, to);
    if from < to {
        assert(!white_space(text[from]));
    }
}

/// The text of a path, where the path is valid UTF-8, as
/// `camino::Utf8PathBuf::from_path_buf` finds it.
pub uninterp spec fn path_text(path: std::path::PathBuf) -> Option<Seq<char>>;

/// `camino::Utf8PathBuf::from_path_buf` and `camino::Utf8PathBuf::into_string`:
/// the path as text, or nothing where the path is not valid UTF-8. Which
/// paths are text, and what their text is, depends on the path alone; the
/// contract gives it the name [`path_text`] and claims nothing more.
#[verifier::external_body]
fn utf8_text(path: std::path::PathBuf) -> (text: Option<String>)
    ensures
        match text {
            Some(t) => path_text(path) == Some(t@),
            None => path_text(path) is None,
        },
{
    match camino::Utf8PathBuf::from_path_buf(path) {
        Ok(path) => Some(path.into_string()),
        Err(_) => None,
    }
}

impl ConfigView {
    /// Whether the machine has an identity: the identity is not empty.
    pub open spec fn named(self) -> bool {
        self.identity.len() > 0
    }
}

impl Config {
    /// The identity of a machine that was never given one.
    pub open spec fn default_identity() -> Seq<char> {
        "undefined"@
    }

    /// The identity after `given` was asked for in place of `old`: `given`,
    /// unless it is empty. An empty identity is never taken; the old one
    /// stays.
    pub open spec fn new_identity(old: Seq<char>, given: Seq<char>) -> Seq<char> {
        if given.len() == 0 {
            old
        } else {
            given
        }
    }

    /// The path of a first run in the working directory `current_dir`: the
    /// directory as text, and empty where there is no directory or where it
    /// is not text.
    pub open spec fn default_path(current_dir: Option<std::path::PathBuf>) -> Seq<char> {
        match current_dir {
            Some(path) => match path_text(path) {
                Some(text) => text,
                None => Seq::<char>::empty(),
            },
            None => Seq::<char>::empty(),
        }
    }

    /// The settings of a first run, for the working directory `nix_path` as
    /// text: the default identity, and that directory as the path. Without a
    /// directory the path is empty.
    pub fn default_with(nix_path: Option<String>) -> (config: Self)
        ensures
            config@.identity == Self::default_identity(),
            config@.named(),
            config@.nix_path == match nix_path {
                Some(text) => text@,
                None => Seq::<char>::empty(),
            },
    {
        let nix_path = match nix_path {
            Some(text) => text,
            None => String::new(),
        };
        proof {
            reveal_strlit("undefined");
        }
        Config { identity: String::from_str("undefined"), nix_path }
    }

    /// The settings of a first run in the working directory `current_dir`.
    /// The path is empty where there is no working directory, or where it is
    /// not text.
    pub fn default_in(current_dir: Option<std::path::PathBuf>) -> (config: Self)
        ensures
            config@.identity == Self::default_identity(),
            config@.named(),
            config@.nix_path == Self::default_path(current_dir),
    {
        let text = match current_dir {
            Some(path) => utf8_text(path),
            None => None,
        };
        Self::default_with(text)
    }

    /// These settings with `identity` in place of the identity. An empty
    /// `identity` is not taken: the settings stay as they are.
    pub fn identified(&self, identity: String) -> (config: Self)
        ensures
            config@ == (ConfigView {
                identity: Self::new_identity(self@.identity, identity@),
                nix_path: self@.nix_path,
            }),
            self@.named() ==> config@.named(),
    {
        if identity.as_str().is_empty() {
            self.clone()
        } else {
            Config { identity, nix_path: self.nix_path.clone() }
        }
    }

    /// These settings with the identity that the user typed as `identity`:
    /// white space at its ends does not count. Where nothing but white space
    /// was typed, the settings stay as they are.
    pub fn with_identity(&self, identity: &str) -> (config: Self)
        ensures
            config@ == (ConfigView {
                identity: Self::new_identity(self@.identity, trimmed(identity@)),
                nix_path: self@.nix_path,
            }),
            trims(identity@, trimmed(identity@)),
            self@.named() ==> config@.named(),
    {
        self.identified(String::from_str(trim(identity)))
    }

    /// These settings with the path `text`, if there is one. A path that is
    /// not text is refused.
    pub fn with_path_text(&self, text: Option<String>) -> (result: Result<Self, Errors>)
        ensures
            match text {
                Some(nix_path) => result matches Ok(config) && config@ == (ConfigView {
                    identity: self@.identity,
                    nix_path: nix_path@,
                }),
                None => result matches Err(error) && error is NotUTFPath,
            },
    {
        match text {
            Some(nix_path) => Ok(Config { identity: self.identity.clone(), nix_path }),
            None => Err(Errors::NotUTFPath),
        }
    }

    /// These settings with `path` as the path to the nix configuration. A
    /// path that is not valid UTF-8 is refused, and nothing else is.
    pub fn with_path(&self, path: std::path::PathBuf) -> (result: Result<Self, Errors>)
        ensures
            match path_text(path) {
                Some(text) => result matches Ok(config) && config@ == (ConfigView {
                    identity: self@.identity,
                    nix_path: text,
                }),
                None => result matches Err(error) && error is NotUTFPath,
            },
    {
        self.with_path_text(utf8_text(path))
    }
}

/// Begins a switch of `targets`: plans its command lines and returns the run
/// that carries them out one by one, none of them run yet.
///
/// The commands are, in this order: the two privilege commands, if the system
/// is among `targets`; the update of the lock file, if `update` is set; and
/// one command for each of `targets`, in the order given. An empty `targets`
/// is in order.
pub fn switch(config: &Config, targets: &[ToSwitch], update: bool, executer: Executer) -> (run:
    SwitchRun)
    ensures
        run@ == SwitchRunView::start(
            executer.display,
            executer.out,
            switch_plan(config@, targets@, update),
        ),
        run@.wf(),
{
    SwitchRun::new(executer, switch_commands(config, targets, update))
}

/// A switch of no target, without an update, has succeeded as soon as it has
/// begun: it takes no command and asks for nothing.
pub proof fn nothing_asked_has_succeeded(config: Config, executer: Executer)
    ensures
        SwitchRunView::start(
            executer.display,
            executer.out,
            switch_plan(config@, Seq::empty(), false),
        ).status() == Status::Succeeded,
        SwitchRunView::start(
            executer.display,
            executer.out,
            switch_plan(config@, Seq::empty(), false),
        ).pending() is None,
{
    nothing_asked_takes_no_command(config);
}

} // verus!
