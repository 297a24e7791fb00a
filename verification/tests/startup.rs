use aries_cli::agent::{AgentHandle, OutputMode, RunConfiguration, SupportedAgent};
use aries_cli::cli::register::{register_cli, Action, Event, Stage};
use aries_cli::cli::resolve::CliArguments;
use aries_cli::cli::registry::{module_for, modules, ModuleKind};
use aries_cli::error::Error;
use aries_cli::utils::config::Platform;

fn arguments(subcommand: &str) -> CliArguments {
    CliArguments {
        environment: Some("staging".to_string()),
        config: None,
        endpoint: None,
        apikey: None,
        copy: false,
        suppress_output: false,
        subcommand: Some(subcommand.to_string()),
    }
}

fn arrived(subcommand: &str) -> Event {
    Event::Arguments {
        arguments: arguments(subcommand),
        platform: Platform::Unix,
        home: Some("/home/alice".to_string()),
    }
}

fn staging_agent() -> AgentHandle {
    AgentHandle::new(
        SupportedAgent::AriesCloudagentPython,
        RunConfiguration {
            endpoint: "https://staging.example".to_string(),
            api_key: Some("abc123".to_string()),
            output: OutputMode::Normal,
        },
    )
}

fn staging_file() -> Event {
    Event::ConfigRead {
        contents: Some("[staging]\nendpoint=https://staging.example\napi_key=abc123".to_string()),
    }
}

#[test]
fn start_asks_for_the_command_line() {
    assert_eq!(Stage::start(), Stage::ParseArgs);
    assert_eq!(Stage::start().action(), Action::ParseArgs);
}

#[test]
fn arguments_lead_to_reading_the_file() {
    let stage = register_cli(Stage::start(), arrived("schema"));
    assert_eq!(
        stage,
        Stage::ResolveConfig {
            arguments: arguments("schema"),
            path: "/home/alice/.config/aries-cli/config.ini".to_string(),
        }
    );
    assert_eq!(
        stage.action(),
        Action::ReadConfig { path: "/home/alice/.config/aries-cli/config.ini" }
    );
}

#[test]
fn unknown_platform_ends_the_run() {
    let event = Event::Arguments {
        arguments: arguments("schema"),
        platform: Platform::Unsupported,
        home: None,
    };
    let stage = register_cli(Stage::start(), event);
    assert_eq!(stage, Stage::Exit { error: Some(Error::PlatformUnsupported), cause: None });
    assert_eq!(
        stage.action(),
        Action::Exit { error: Some(&Error::PlatformUnsupported), cause: None }
    );
}

#[test]
fn file_leads_to_the_probe() {
    let stage = register_cli(register_cli(Stage::start(), arrived("schema")), staging_file());
    assert_eq!(
        stage,
        Stage::CheckEndpoint { agent: staging_agent(), subcommand: Some("schema".to_string()) }
    );
    assert_eq!(stage.action(), Action::CheckEndpoint { agent: &staging_agent() });
}

#[test]
fn missing_endpoint_ends_the_run_with_its_cause() {
    let waiting = register_cli(Stage::start(), arrived("schema"));
    let cases = [
        (None, Error::ConfigMissing),
        (Some("nonsense".to_string()), Error::ConfigMalformed),
        (Some("[Default]\nendpoint=https://d.example".to_string()), Error::EnvironmentNotFound),
    ];
    for (contents, cause) in cases {
        let stage = register_cli(
            register_cli(Stage::start(), arrived("schema")),
            Event::ConfigRead { contents },
        );
        assert_eq!(
            stage,
            Stage::Exit { error: Some(Error::NoEndpointResolved), cause: Some(cause) }
        );
    }
    assert!(matches!(waiting, Stage::ResolveConfig { .. }));
}

#[test]
fn unreachable_agent_ends_the_run_before_any_module() {
    let probing = register_cli(register_cli(Stage::start(), arrived("schema")), staging_file());
    let stage = register_cli(probing, Event::EndpointChecked { reachable: false });
    assert_eq!(stage, Stage::Exit { error: Some(Error::AgentUnreachable), cause: None });
}

#[test]
fn every_module_is_offered_the_invocation_and_one_runs() {
    let mut stage = register_cli(register_cli(Stage::start(), arrived("schema")), staging_file());
    stage = register_cli(stage, Event::EndpointChecked { reachable: true });
    let mut offered = Vec::new();
    let mut ran = Vec::new();
    loop {
        match stage.action() {
            Action::Register { module, run, agent } => {
                assert_eq!(agent, &staging_agent());
                offered.push(module);
                if run {
                    ran.push(module);
                }
            }
            Action::Exit { error, cause } => {
                assert_eq!(error, None);
                assert_eq!(cause, None);
                break;
            }
            other => panic!("unexpected action {:?}", other),
        }
        stage = register_cli(stage, Event::Registered);
    }
    assert_eq!(offered, modules());
    assert_eq!(ran, vec![ModuleKind::Schema]);
}

#[test]
fn unknown_subcommand_runs_no_module() {
    let mut stage = register_cli(register_cli(Stage::start(), arrived("nothing")), staging_file());
    stage = register_cli(stage, Event::EndpointChecked { reachable: true });
    let mut offered: usize = 0;
    while let Action::Register { run, .. } = stage.action() {
        assert!(!run);
        offered += 1;
        stage = register_cli(stage, Event::Registered);
    }
    assert_eq!(offered, 7);
    assert_eq!(stage, Stage::Exit { error: None, cause: None });
}

#[test]
fn events_out_of_turn_change_nothing() {
    assert_eq!(register_cli(Stage::start(), Event::Registered), Stage::ParseArgs);
    assert_eq!(register_cli(Stage::start(), staging_file()), Stage::ParseArgs);
    let waiting = register_cli(Stage::start(), arrived("schema"));
    let still = register_cli(waiting, Event::EndpointChecked { reachable: true });
    assert_eq!(still, register_cli(Stage::start(), arrived("schema")));
    let over = Stage::Exit { error: Some(Error::AgentUnreachable), cause: None };
    assert_eq!(
        register_cli(over, arrived("schema")),
        Stage::Exit { error: Some(Error::AgentUnreachable), cause: None }
    );
}

#[test]
fn modules_are_seven_in_fixed_order() {
    assert_eq!(
        modules(),
        vec![
            ModuleKind::Connections,
            ModuleKind::Invitations,
            ModuleKind::Credentials,
            ModuleKind::Messages,
            ModuleKind::Features,
            ModuleKind::Schema,
            ModuleKind::CredentialDefinition,
        ]
    );
    assert_eq!(ModuleKind::first(), ModuleKind::Connections);
    let mut module = ModuleKind::first();
    let mut walked = vec![module];
    while let Some(next) = module.next() {
        walked.push(next);
        module = next;
    }
    assert_eq!(walked, modules());
}

#[test]
fn each_subcommand_finds_its_module() {
    let names = [
        "connections",
        "invitations",
        "credentials",
        "messages",
        "features",
        "schema",
        "credential-definition",
    ];
    for (module, name) in modules().into_iter().zip(names) {
        assert_eq!(module.subcommand(), name);
        assert_eq!(module_for(name), Some(module));
        assert!(module.matches(&Some(name.to_string())));
        assert!(!module.matches(&None));
        for other in modules() {
            assert_eq!(other.matches(&Some(name.to_string())), other == module);
        }
    }
    assert_eq!(module_for("configuration"), None);
    assert_eq!(module_for(""), None);
    assert_eq!(module_for("Schema"), None);
}
