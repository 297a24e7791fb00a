//! The `configuration` command: it creates the configuration file, or shows
//! it.

use vstd::prelude::*;
use vstd::string::*;
use crate::error::Error;
use crate::utils::config::{
    config_path_of, stored_environments, valid_environment, well_formed, Configuration,
    ConfigurationView, Platform,
};
use crate::utils::format::environment_text;
use crate::utils::laws::lemma_write_then_read;
use crate::utils::text::{optional_str, optional_text, result_text};

verus! {

/// The flags of the `configuration` command. At most one of them may be
/// set.
#[derive(Debug, Clone, Copy, PartialEq, Eq, Structural)]
pub struct ConfigurationOptions {
    pub initialize: bool,
    pub view: bool,
}

/// What the `configuration` command asks of its caller.
#[derive(Debug, PartialEq, Eq)]
pub enum ConfigurationAction {
    /// Create the file at `path`, if none is there.
    Initialise { path: String },
    /// Show the file at `path`.
    View { path: String },
}

/// The command's own name, as errors carry it.
pub open spec fn command_name() -> Seq<char> {
    "configuration"@
}

/// The name of the environment that a new file holds.
pub open spec fn seed_name() -> Seq<char> {
    "Default"@
}

/// The endpoint of the environment that a new file holds.
pub open spec fn seed_endpoint() -> Seq<char> {
    "https://agent.community.animo.id"@
}

/// The one environment of a new file: the seed's name and endpoint, no key.
pub open spec fn seed_environment() -> ConfigurationView {
    ConfigurationView { name: seed_name(), endpoint: seed_endpoint(), api_key: None }
}

/// Where the configuration file lives: see
/// [`get_config_path`](crate::utils::config::get_config_path).
pub fn get_config_path(platform: Platform, home: Option<&str>) -> (path: Result<String, Error>)
    ensures
        result_text(path) == config_path_of(platform, optional_str(home)),
{
    crate::utils::config::get_config_path(platform, home)
}

/// Decides what an invocation of the command is to do. The flags are
/// looked at first, whatever the host: two flags that exclude each other are
/// refused, and so is an invocation without a flag. Only with exactly one
/// flag set is the file's place looked up; the flag then names the action at
/// that place, and a host without such a place gives its own error.
pub fn parse_configuration_args(
    options: &ConfigurationOptions,
    platform: Platform,
    home: Option<&str>,
) -> (action: Result<ConfigurationAction, Error>)
    ensures
        options.initialize && options.view ==> (action matches Err(Error::ConflictingFlags(command))
            && command@ == command_name()),
        !options.initialize && !options.view ==> (action matches Err(
            Error::NoFlagSupplied(command),
        ) && command@ == command_name()),
        options.initialize != options.view ==> match config_path_of(
            platform,
            optional_str(home),
        ) {
            Err(e) => action == Err::<ConfigurationAction, Error>(e),
            Ok(place) => {
                if options.initialize {
                    action matches Ok(ConfigurationAction::Initialise { path }) && path@ == place
                } else {
                    action matches Ok(ConfigurationAction::View { path }) && path@ == place
                }
            },
        },
{
    if options.initialize && options.view {
        return Err(Error::ConflictingFlags(String::from_str("configuration")));
    }
    if !options.initialize && !options.view {
        return Err(Error::NoFlagSupplied(String::from_str("configuration")));
    }
    let path = match get_config_path(platform, home) {
        Ok(path) => path,
        Err(e) => {
            return Err(e);
        },
    };
    if options.initialize {
        Ok(ConfigurationAction::Initialise { path })
    } else {
        Ok(ConfigurationAction::View { path })
    }
}

/// The environment that a new file holds.
pub fn default_environment() -> (seed: Configuration)
    ensures
        seed@ == seed_environment(),
{
    Configuration {
        name: String::from_str("Default"),
        endpoint: String::from_str("https://agent.community.animo.id"),
        api_key: None,
    }
}

/// The outcome of an attempt to create the file: the text to write, or the
/// refusal where a file is in place.
pub open spec fn initialise_outcome(exists: bool) -> Result<Seq<char>, Error> {
    if exists {
        Err(Error::ConfigAlreadyExists)
    } else {
        Ok(environment_text(seed_environment()))
    }
}

/// Decides an attempt to create the configuration file. `exists` says
/// whether a file is already at the path. Where one is, the attempt is
/// refused and there is nothing to write; else the result is the text of the
/// new file, which the caller writes once the directories above it exist.
pub fn initialise(exists: bool) -> (text: Result<String, Error>)
    ensures
        result_text(text) == initialise_outcome(exists),
{
    if exists {
        return Err(Error::ConfigAlreadyExists);
    }
    Ok(default_environment().to_text())
}

/// The outcome of showing the file: its text, or that there is none.
pub open spec fn view_outcome(contents: Option<Seq<char>>) -> Result<Seq<char>, Error> {
    match contents {
        Some(text) => Ok(text),
        None => Err(Error::ConfigMissing),
    }
}

/// Hands out the file's text as it was read, for a human to look at.
/// `contents` is `None` where no file could be read.
pub fn view(contents: Option<String>) -> (text: Result<String, Error>)
    ensures
        result_text(text) == view_outcome(optional_text(contents)),
        contents matches Some(read) ==> text == Ok::<String, Error>(read),
{
    match contents {
        Some(read) => Ok(read),
        None => Err(Error::ConfigMissing),
    }
}

/// What is at the configuration path after an attempt to create the file,
/// for a caller that writes what the attempt hands out and nothing else.
/// `None` stands for no file, `Some` for a file with its text.
pub open spec fn file_after_initialise(before: Option<Seq<char>>) -> Option<Seq<char>> {
    match initialise_outcome(before is Some) {
        Ok(text) => Some(text),
        Err(_) => before,
    }
}

/// The seed can be written to a file and read back.
pub proof fn lemma_seed_valid()
    ensures
        valid_environment(seed_environment()),
        well_formed(seq![seed_environment()]),
{
    reveal_strlit("Default");
    reveal_strlit("https://agent.community.animo.id");
}

/// An attempt to create the file where one is in place is refused, and the
/// file stays as it was.
pub proof fn lemma_initialise_keeps_existing(before: Option<Seq<char>>)
    requires
        before is Some,
    ensures
        initialise_outcome(before is Some) == Err::<Seq<char>, Error>(Error::ConfigAlreadyExists),
        file_after_initialise(before) == before,
{
}

/// Creating the file where none is in place and reading it back gives
/// exactly one environment: the seed. A second attempt is refused.
pub proof fn lemma_initialise_then_read()
    ensures
        file_after_initialise(None) is Some,
        stored_environments(file_after_initialise(None)) == Ok::<Seq<ConfigurationView>, Error>(
            seq![seed_environment()],
        ),
        initialise_outcome(file_after_initialise(None) is Some) == Err::<Seq<char>, Error>(
            Error::ConfigAlreadyExists,
        ),
{
    lemma_seed_valid();
    lemma_write_then_read(seq![seed_environment()]);
}

} // verus!
