//! The effective configuration of an invocation: which agent it talks to,
//! with which key, and what becomes of its output. The command line wins
//! over the configuration file, value by value.

use vstd::prelude::*;
use vstd::string::*;
use crate::agent::{
    copy_optional, output_mode, output_mode_of, RunConfiguration, RunConfigurationView,
};
use crate::error::Error;
use crate::modules::configuration::{
    file_after_initialise, lemma_initialise_then_read, seed_endpoint, seed_environment,
};
use crate::utils::config::{
    config_path_of, environments_of, get_config_path, has_name, lemma_lookup_absent,
    lemma_lookup_first, lookup, stored_environments, well_formed, Configuration, Configurations,
    ConfigurationView, Platform,
};
use crate::utils::text::{optional_str, optional_text, result_text};

verus! {

/// The values given on the command line, as the argument parser found them.
/// `subcommand` names the module that is invoked; it is `None` where none
/// was named.
#[derive(Debug, PartialEq, Eq)]
pub struct CliArguments {
    pub environment: Option<String>,
    pub config: Option<String>,
    pub endpoint: Option<String>,
    pub apikey: Option<String>,
    pub copy: bool,
    pub suppress_output: bool,
    pub subcommand: Option<String>,
}

/// The command line as contracts see it.
pub struct CliArgumentsView {
    pub environment: Option<Seq<char>>,
    pub config: Option<Seq<char>>,
    pub endpoint: Option<Seq<char>>,
    pub apikey: Option<Seq<char>>,
    pub copy: bool,
    pub suppress_output: bool,
    pub subcommand: Option<Seq<char>>,
}

impl View for CliArguments {
    type V = CliArgumentsView;

    open spec fn view(&self) -> CliArgumentsView {
        CliArgumentsView {
            environment: optional_text(self.environment),
            config: optional_text(self.config),
            endpoint: optional_text(self.endpoint),
            apikey: optional_text(self.apikey),
            copy: self.copy,
            suppress_output: self.suppress_output,
            subcommand: optional_text(self.subcommand),
        }
    }
}

/// The name of the environment that is used where none is asked for.
pub open spec fn default_environment_name() -> Seq<char> {
    "Default"@
}

/// The name of the environment that an invocation resolves against.
pub open spec fn wanted_environment(arguments: CliArgumentsView) -> Seq<char> {
    match arguments.environment {
        Some(name) => name,
        None => default_environment_name(),
    }
}

/// The configuration file's place for an invocation: the path given on the
/// command line, else the platform's own.
pub open spec fn chosen_config_path(
    arguments: CliArgumentsView,
    platform: Platform,
    home: Option<Seq<char>>,
) -> Result<Seq<char>, Error> {
    match arguments.config {
        Some(path) => Ok(path),
        None => config_path_of(platform, home),
    }
}

/// The environment that an invocation resolves against, or why there is
/// none: the file's own failure, or that the file lacks the name.
pub open spec fn wanted_stored(
    arguments: CliArgumentsView,
    stored: Result<Seq<ConfigurationView>, Error>,
) -> Result<ConfigurationView, Error> {
    match stored {
        Ok(environments) => match lookup(environments, wanted_environment(arguments)) {
            Some(environment) => Ok(environment),
            None => Err(Error::EnvironmentNotFound),
        },
        Err(e) => Err(e),
    }
}

/// The endpoint of an invocation: the one given on the command line, as it
/// stands; else the stored environment's; else none.
pub open spec fn resolved_endpoint(
    arguments: CliArgumentsView,
    found: Result<ConfigurationView, Error>,
) -> Option<Seq<char>> {
    match arguments.endpoint {
        Some(endpoint) => Some(endpoint),
        None => match found {
            Ok(environment) => Some(environment.endpoint),
            Err(_) => None,
        },
    }
}

/// The key of an invocation: the one given on the command line; else the
/// stored environment's, if it has one; else none.
pub open spec fn resolved_api_key(
    arguments: CliArgumentsView,
    found: Result<ConfigurationView, Error>,
) -> Option<Seq<char>> {
    match arguments.apikey {
        Some(key) => Some(key),
        None => match found {
            Ok(environment) => environment.api_key,
            Err(_) => None,
        },
    }
}

/// The effective configuration of an invocation, from the command line and
/// from what the configuration file gave. Without an endpoint there is
/// none.
pub open spec fn resolution(
    arguments: CliArgumentsView,
    stored: Result<Seq<ConfigurationView>, Error>,
) -> Result<RunConfigurationView, Error> {
    let found = wanted_stored(arguments, stored);
    match resolved_endpoint(arguments, found) {
        Some(endpoint) => Ok(
            RunConfigurationView {
                endpoint,
                api_key: resolved_api_key(arguments, found),
                output: output_mode_of(arguments.copy, arguments.suppress_output),
            },
        ),
        None => Err(Error::NoEndpointResolved),
    }
}

/// The view of a run configuration, or the error as it is.
pub open spec fn run_view(run: Result<RunConfiguration, Error>) -> Result<
    RunConfigurationView,
    Error,
> {
    match run {
        Ok(configuration) => Ok(configuration@),
        Err(e) => Err(e),
    }
}

/// The view of an environment, or the error as it is.
pub open spec fn environment_view(found: Result<&Configuration, Error>) -> Result<
    ConfigurationView,
    Error,
> {
    match found {
        Ok(environment) => Ok(environment@),
        Err(e) => Err(e),
    }
}

/// The name of the environment to resolve against.
pub fn environment_name(arguments: &CliArguments) -> (name: String)
    ensures
        name@ == wanted_environment(arguments@),
{
    match &arguments.environment {
        Some(name) => name.clone(),
        None => String::from_str("Default"),
    }
}

/// Chooses the configuration file's place: a path given on the command
/// line wins over the platform's own.
pub fn resolve_config_path(arguments: &CliArguments, platform: Platform, home: Option<&str>) -> (path:
    Result<String, Error>)
    ensures
        result_text(path) == chosen_config_path(arguments@, platform, optional_str(home)),
{
    match &arguments.config {
        Some(path) => Ok(path.clone()),
        None => get_config_path(platform, home),
    }
}

/// Looks up the environment that the invocation asks for in what the
/// configuration file gave. That the file lacks the name is told apart from
/// the file's own failure.
pub fn stored_environment<'a>(
    arguments: &CliArguments,
    stored: &'a Result<Configurations, Error>,
) -> (found: Result<&'a Configuration, Error>)
    ensures
        environment_view(found) == wanted_stored(arguments@, environments_of(*stored)),
{
    match stored {
        Ok(configurations) => {
            let name = environment_name(arguments);
            match configurations.find(name.as_str()) {
                Some(environment) => Ok(environment),
                None => Err(Error::EnvironmentNotFound),
            }
        },
        Err(e) => Err(e.clone()),
    }
}

/// Resolves the effective configuration of an invocation. `stored` is what
/// reading the configuration file gave.
///
/// The endpoint and the key are resolved independently of each other: a
/// value from the command line is used as it stands; else the value of the
/// stored environment of the wanted name. An invocation without a key runs
/// unauthenticated; one without an endpoint does not run.
pub fn resolve_configuration(arguments: &CliArguments, stored: &Result<Configurations, Error>) -> (run:
    Result<RunConfiguration, Error>)
    ensures
        run_view(run) == resolution(arguments@, environments_of(*stored)),
{
    let found = stored_environment(arguments, stored);
    let endpoint = match &arguments.endpoint {
        Some(endpoint) => endpoint.clone(),
        None => match &found {
            Ok(environment) => environment.endpoint.clone(),
            Err(_) => {
                return Err(Error::NoEndpointResolved);
            },
        },
    };
    let api_key = match &arguments.apikey {
        Some(key) => Some(key.clone()),
        None => match &found {
            Ok(environment) => copy_optional(&environment.api_key),
            Err(_) => None,
        },
    };
    Ok(RunConfiguration { endpoint, api_key, output: output_mode(arguments.copy, arguments.suppress_output) })
}

/// Without an endpoint on the command line, an invocation that names an
/// environment of the configuration file runs against exactly that
/// environment's endpoint.
pub proof fn lemma_stored_endpoint_is_used(
    arguments: CliArgumentsView,
    environments: Seq<ConfigurationView>,
    index: int,
)
    requires
        well_formed(environments),
        0 <= index < environments.len(),
        wanted_environment(arguments) == environments[index].name,
        arguments.endpoint is None,
    ensures
        resolution(arguments, Ok(environments)) matches Ok(run) && run.endpoint
            == environments[index].endpoint,
{
    lemma_named_is_found(environments, index);
}

/// Among well-formed environments, each is the one that its name finds.
pub proof fn lemma_named_is_found(environments: Seq<ConfigurationView>, index: int)
    requires
        well_formed(environments),
        0 <= index < environments.len(),
    ensures
        lookup(environments, environments[index].name) == Some(environments[index]),
{
    let name = environments[index].name;
    assert forall|j: int| 0 <= j < index implies (#[trigger] environments[j]).name != name by {}
    lemma_lookup_first(environments, name, index);
}

/// An endpoint given on the command line is the one used, whatever the
/// configuration file holds or fails with.
pub proof fn lemma_cli_endpoint_wins(
    arguments: CliArgumentsView,
    stored: Result<Seq<ConfigurationView>, Error>,
)
    requires
        arguments.endpoint is Some,
    ensures
        resolution(arguments, stored) matches Ok(run) && Some(run.endpoint) == arguments.endpoint,
{
}

/// A key given on the command line is the one used, wherever the endpoint
/// comes from.
pub proof fn lemma_cli_api_key_wins(
    arguments: CliArgumentsView,
    stored: Result<Seq<ConfigurationView>, Error>,
)
    requires
        arguments.apikey is Some,
    ensures
        resolution(arguments, stored) matches Ok(run) ==> run.api_key == arguments.apikey,
{
}

/// Without a key on the command line, an invocation that names an
/// environment of the configuration file runs with that environment's key,
/// or without one where it has none, wherever the endpoint comes from.
pub proof fn lemma_stored_api_key_is_used(
    arguments: CliArgumentsView,
    environments: Seq<ConfigurationView>,
    index: int,
)
    requires
        well_formed(environments),
        0 <= index < environments.len(),
        wanted_environment(arguments) == environments[index].name,
        arguments.apikey is None,
    ensures
        resolution(arguments, Ok(environments)) matches Ok(run) && run.api_key
            == environments[index].api_key,
{
    lemma_named_is_found(environments, index);
}

/// With no endpoint on the command line and no stored environment of the
/// wanted name, be it that the file could not be read or that it lacks the
/// name, resolution fails, and with this one error.
pub proof fn lemma_no_endpoint_fails(
    arguments: CliArgumentsView,
    stored: Result<Seq<ConfigurationView>, Error>,
)
    requires
        arguments.endpoint is None,
        stored matches Ok(environments) ==> !has_name(environments, wanted_environment(arguments)),
    ensures
        resolution(arguments, stored) == Err::<RunConfigurationView, Error>(
            Error::NoEndpointResolved,
        ),
{
    if let Ok(environments) = stored {
        lemma_lookup_absent(environments, wanted_environment(arguments));
    }
}

/// A configuration file that was just created serves an invocation that
/// names no environment and brings no endpoint: it runs against the seed's
/// endpoint, and without a key unless the command line has one.
pub proof fn lemma_fresh_file_serves_default(arguments: CliArgumentsView)
    requires
        arguments.environment is None,
        arguments.endpoint is None,
    ensures
        resolution(arguments, stored_environments(file_after_initialise(None))) matches Ok(run)
            && run.endpoint == seed_endpoint() && run.api_key == arguments.apikey,
{
    lemma_initialise_then_read();
    lemma_lookup_first(seq![seed_environment()], default_environment_name(), 0);
}

} // verus!
