//! From the command line to the module that serves it: the effective
//! configuration is resolved, the agent handle is built and probed, and the
//! modules are offered the invocation, one after the other.

use vstd::prelude::*;
use vstd::string::*;
use crate::agent::{agent_of, AgentHandle, SupportedAgent};
use crate::cli::registry::{following, module_order, serves, ModuleKind};
use crate::cli::resolve::{
    chosen_config_path, resolution, resolve_config_path, resolve_configuration,
    stored_environment, wanted_stored, CliArguments, CliArgumentsView,
};
use crate::error::Error;
use crate::utils::config::{
    get_config_from_path, stored_environments, ConfigurationView, Platform,
};
use crate::utils::text::{optional_str, optional_text};

verus! {

/// Where the start-up of an invocation stands. Each stage but the last
/// waits for one thing that only the caller can bring.
#[derive(Debug, PartialEq, Eq)]
pub enum Stage {
    /// Waiting for the command line.
    ParseArgs,
    /// Waiting for the text of the configuration file at `path`.
    ResolveConfig { arguments: CliArguments, path: String },
    /// The agent handle is built; waiting for the outcome of the probe.
    CheckEndpoint { agent: AgentHandle, subcommand: Option<String> },
    /// The agent answered; `module` is being offered the invocation.
    Register { agent: AgentHandle, subcommand: Option<String>, module: ModuleKind },
    /// The run is over. `error` is why it failed, if it did; `cause` is why
    /// the configuration file gave no environment, where that matters.
    Exit { error: Option<Error>, cause: Option<Error> },
}

/// What the caller brings back.
#[derive(Debug, PartialEq, Eq)]
pub enum Event {
    /// The command line, the kind of host and the home directory, if any.
    Arguments { arguments: CliArguments, platform: Platform, home: Option<String> },
    /// The text of the configuration file, `None` where none could be read.
    ConfigRead { contents: Option<String> },
    /// Whether the agent answered the probe.
    EndpointChecked { reachable: bool },
    /// The module that was offered the invocation has returned.
    Registered,
}

/// What a stage asks of the caller.
#[derive(Debug, PartialEq, Eq)]
pub enum Action<'a> {
    /// Read the command line.
    ParseArgs,
    /// Read the configuration file at `path`.
    ReadConfig { path: &'a str },
    /// Probe whether the agent can be reached.
    CheckEndpoint { agent: &'a AgentHandle },
    /// Offer the invocation to `module`, which runs where `run` is set and
    /// does nothing else.
    Register { module: ModuleKind, run: bool, agent: &'a AgentHandle },
    /// End the process: with success where `error` is `None`.
    Exit { error: Option<&'a Error>, cause: Option<&'a Error> },
}

/// Why the configuration file gave no environment, if it gave none.
pub open spec fn lookup_failure(
    arguments: CliArgumentsView,
    stored: Result<Seq<ConfigurationView>, Error>,
) -> Option<Error> {
    match wanted_stored(arguments, stored) {
        Ok(_) => None,
        Err(e) => Some(e),
    }
}

/// Whether `after` is the stage that follows `before` on `event`.
///
/// The stages follow each other in one line: the command line gives the
/// configuration file's place; the file's text gives the effective
/// configuration, from which the agent handle is built; the probe's outcome
/// opens the round of the modules, which are offered the invocation in their
/// order; after the last of them the run is over. A failure at any stage ends
/// the run at once. An event that a stage does not wait for leaves the stage
/// as it is.
pub open spec fn follows(before: Stage, event: Event, after: Stage) -> bool {
    match (before, event) {
        (Stage::ParseArgs, Event::Arguments { arguments, platform, home }) => {
            match chosen_config_path(arguments@, platform, optional_text(home)) {
                Ok(place) => {
                    &&& after matches Stage::ResolveConfig { arguments: kept, path }
                    &&& kept == arguments
                    &&& path@ == place
                },
                Err(e) => after == (Stage::Exit { error: Some(e), cause: None }),
            }
        },
        (Stage::ResolveConfig { arguments, path }, Event::ConfigRead { contents }) => {
            let stored = stored_environments(optional_text(contents));
            match resolution(arguments@, stored) {
                Ok(run) => {
                    &&& after matches Stage::CheckEndpoint { agent, subcommand }
                    &&& agent@ == agent_of(SupportedAgent::AriesCloudagentPython, run)
                    &&& subcommand == arguments.subcommand
                },
                Err(e) => after == (Stage::Exit {
                    error: Some(e),
                    cause: lookup_failure(arguments@, stored),
                }),
            }
        },
        (Stage::CheckEndpoint { agent, subcommand }, Event::EndpointChecked { reachable }) => {
            if reachable {
                after == (Stage::Register { agent, subcommand, module: module_order()[0] })
            } else {
                after == (Stage::Exit { error: Some(Error::AgentUnreachable), cause: None })
            }
        },
        (Stage::Register { agent, subcommand, module }, Event::Registered) => {
            match following(module) {
                Some(next) => after == (Stage::Register { agent, subcommand, module: next }),
                None => after == (Stage::Exit { error: None, cause: None }),
            }
        },
        _ => after == before,
    }
}

/// An optional string as an optional slice.
pub fn as_optional_str(text: &Option<String>) -> (slice: Option<&str>)
    ensures
        optional_str(slice) == optional_text(*text),
{
    match text {
        Some(t) => Some(t.as_str()),
        None => None,
    }
}

/// Takes the start-up of an invocation one stage further: from the stage it
/// stands at and what the caller brought back to the stage that follows.
pub fn register_cli(stage: Stage, event: Event) -> (next: Stage)
    ensures
        follows(stage, event, next),
{
    match (stage, event) {
        (Stage::ParseArgs, Event::Arguments { arguments, platform, home }) => {
            match resolve_config_path(&arguments, platform, as_optional_str(&home)) {
                Ok(path) => Stage::ResolveConfig { arguments, path },
                Err(error) => Stage::Exit { error: Some(error), cause: None },
            }
        },
        (Stage::ResolveConfig { arguments, path }, Event::ConfigRead { contents }) => {
            let stored = get_config_from_path(as_optional_str(&contents));
            match resolve_configuration(&arguments, &stored) {
                Ok(run) => Stage::CheckEndpoint {
                    agent: AgentHandle::new(SupportedAgent::AriesCloudagentPython, run),
                    subcommand: arguments.subcommand,
                },
                Err(error) => {
                    let cause = match stored_environment(&arguments, &stored) {
                        Ok(_) => None,
                        Err(cause) => Some(cause),
                    };
                    Stage::Exit { error: Some(error), cause }
                },
            }
        },
        (Stage::CheckEndpoint { agent, subcommand }, Event::EndpointChecked { reachable }) => {
            if reachable {
                Stage::Register { agent, subcommand, module: ModuleKind::first() }
            } else {
                Stage::Exit { error: Some(Error::AgentUnreachable), cause: None }
            }
        },
        (Stage::Register { agent, subcommand, module }, Event::Registered) => {
            match module.next() {
                Some(next) => Stage::Register { agent, subcommand, module: next },
                None => Stage::Exit { error: None, cause: None },
            }
        },
        (stage, _) => stage,
    }
}

/// The error behind an optional reference.
pub open spec fn pointed(error: Option<&Error>) -> Option<Error> {
    match error {
        Some(e) => Some(*e),
        None => None,
    }
}

/// Whether `action` is what `stage` asks of the caller.
pub open spec fn asks(stage: Stage, action: Action) -> bool {
    match stage {
        Stage::ParseArgs => action is ParseArgs,
        Stage::ResolveConfig { arguments, path } => {
            action matches Action::ReadConfig { path: place } && place@ == path@
        },
        Stage::CheckEndpoint { agent, subcommand } => {
            action matches Action::CheckEndpoint { agent: handle } && *handle == agent
        },
        Stage::Register { agent, subcommand, module } => {
            &&& action matches Action::Register { module: offered, run, agent: handle }
            &&& offered == module
            &&& run == serves(module, optional_text(subcommand))
            &&& *handle == agent
        },
        Stage::Exit { error, cause } => {
            &&& action matches Action::Exit { error: shown, cause: reason }
            &&& pointed(shown) == error
            &&& pointed(reason) == cause
        },
    }
}

impl Stage {
    /// The stage at which every invocation begins.
    pub fn start() -> (stage: Stage)
        ensures
            stage == Stage::ParseArgs,
    {
        Stage::ParseArgs
    }

    /// What this stage asks of the caller.
    pub fn action(&self) -> (action: Action<'_>)
        ensures
            asks(*self, action),
    {
        match self {
            Stage::ParseArgs => Action::ParseArgs,
            Stage::ResolveConfig { arguments: _, path } => Action::ReadConfig {
                path: path.as_str(),
            },
            Stage::CheckEndpoint { agent, subcommand: _ } => Action::CheckEndpoint { agent },
            Stage::Register { agent, subcommand, module } => Action::Register {
                module: *module,
                run: module.matches(subcommand),
                agent,
            },
            Stage::Exit { error, cause } => Action::Exit {
                error: error.as_ref(),
                cause: cause.as_ref(),
            },
        }
    }
}

/// The agent handle of a stage, where the stage has one.
pub open spec fn agent_at(stage: Stage) -> Option<AgentHandle> {
    match stage {
        Stage::CheckEndpoint { agent, subcommand } => Some(agent),
        Stage::Register { agent, subcommand, module } => Some(agent),
        _ => None,
    }
}

/// No module is offered an invocation unless the agent answered the probe:
/// the round of the modules opens on a probe that succeeded, and on nothing
/// else.
pub proof fn lemma_modules_follow_the_probe(before: Stage, event: Event, after: Stage)
    requires
        follows(before, event, after),
        after is Register,
    ensures
        before is Register || (before is CheckEndpoint && event == (Event::EndpointChecked {
            reachable: true,
        })),
{
}

/// A probe that failed ends the run, with the one error for it.
pub proof fn lemma_unreachable_agent_is_fatal(before: Stage, after: Stage)
    requires
        before is CheckEndpoint,
        follows(before, Event::EndpointChecked { reachable: false }, after),
    ensures
        after == (Stage::Exit { error: Some(Error::AgentUnreachable), cause: None }),
{
}

/// Once built, the agent handle stays as it is for the rest of the run.
pub proof fn lemma_agent_is_kept(before: Stage, event: Event, after: Stage)
    requires
        follows(before, event, after),
        agent_at(before) is Some,
        agent_at(after) is Some,
    ensures
        agent_at(after) == agent_at(before),
{
}

/// A run that is over stays over, whatever comes.
pub proof fn lemma_exit_is_final(before: Stage, event: Event, after: Stage)
    requires
        follows(before, event, after),
        before is Exit,
    ensures
        after == before,
{
}

/// The round of the modules goes through the order, one module at a time:
/// after the module at a place comes the module at the next place, and
/// after the last the run ends with success.
pub proof fn lemma_round_follows_the_order(before: Stage, after: Stage, place: int)
    requires
        follows(before, Event::Registered, after),
        0 <= place < module_order().len(),
        before matches Stage::Register { module, .. } && module == module_order()[place],
    ensures
        place + 1 < module_order().len() ==> (after matches Stage::Register { module, .. }
            && module == module_order()[place + 1]),
        place + 1 == module_order().len() ==> after == (Stage::Exit { error: None, cause: None }),
{
}

} // verus!
