use aries_cli::error::Error;
use aries_cli::modules::configuration::{
    default_environment, initialise, parse_configuration_args, view, ConfigurationAction,
    ConfigurationOptions,
};
use aries_cli::utils::config::{get_config_from_path, Configuration, Platform};

const UNIX_PATH: &str = "/home/alice/.config/aries-cli/config.ini";

#[test]
fn both_flags_are_rejected() {
    let options = ConfigurationOptions { initialize: true, view: true };
    assert_eq!(
        parse_configuration_args(&options, Platform::Unix, Some("/home/alice")),
        Err(Error::ConflictingFlags("configuration".to_string()))
    );
    assert_eq!(
        parse_configuration_args(&options, Platform::Unsupported, None),
        Err(Error::ConflictingFlags("configuration".to_string()))
    );
}

#[test]
fn no_flag_is_an_error_that_names_the_command() {
    let options = ConfigurationOptions { initialize: false, view: false };
    let hosts = [
        (Platform::Unix, Some("/home/alice")),
        (Platform::Unix, None),
        (Platform::Windows, None),
        (Platform::Unsupported, None),
        (Platform::Unsupported, Some("/home/alice")),
    ];
    for (platform, home) in hosts {
        assert_eq!(
            parse_configuration_args(&options, platform, home),
            Err(Error::NoFlagSupplied("configuration".to_string()))
        );
    }
}

#[test]
fn initialize_flag_asks_to_create_the_file() {
    let options = ConfigurationOptions { initialize: true, view: false };
    assert_eq!(
        parse_configuration_args(&options, Platform::Unix, Some("/home/alice")),
        Ok(ConfigurationAction::Initialise { path: UNIX_PATH.to_string() })
    );
}

#[test]
fn view_flag_asks_to_show_the_file() {
    let options = ConfigurationOptions { initialize: false, view: true };
    assert_eq!(
        parse_configuration_args(&options, Platform::Unix, Some("/home/alice")),
        Ok(ConfigurationAction::View { path: UNIX_PATH.to_string() })
    );
}

#[test]
fn one_flag_on_a_host_without_a_place_gives_the_hosts_error() {
    for (initialize, view) in [(true, false), (false, true)] {
        let options = ConfigurationOptions { initialize, view };
        assert_eq!(
            parse_configuration_args(&options, Platform::Unsupported, Some("/home/alice")),
            Err(Error::PlatformUnsupported)
        );
        assert_eq!(
            parse_configuration_args(&options, Platform::Unix, None),
            Err(Error::HomeNotFound)
        );
    }
}

#[test]
fn initialise_refuses_where_a_file_exists() {
    assert_eq!(initialise(true), Err(Error::ConfigAlreadyExists));
}

#[test]
fn initialise_writes_the_seed() {
    assert_eq!(
        initialise(false),
        Ok("[Default]\nendpoint=https://agent.community.animo.id".to_string())
    );
}

#[test]
fn initialise_then_read_gives_the_seed_alone() {
    let text = initialise(false).unwrap();
    let read = get_config_from_path(Some(&text)).unwrap();
    assert_eq!(
        read.configurations,
        vec![Configuration {
            name: "Default".to_string(),
            endpoint: "https://agent.community.animo.id".to_string(),
            api_key: None,
        }]
    );
    assert_eq!(read.configurations, vec![default_environment()]);
}

#[test]
fn failed_initialise_leaves_the_file_as_it_was() {
    // The file as a caller holds it: written only with what an attempt hands out.
    let mut file: Option<String> = Some("[mine]\nendpoint=https://mine.example".to_string());
    let before = file.clone();
    let attempt = initialise(file.is_some());
    if let Ok(text) = &attempt {
        file = Some(text.clone());
    }
    assert_eq!(attempt, Err(Error::ConfigAlreadyExists));
    assert_eq!(file, before);
}

#[test]
fn second_initialise_fails() {
    let mut file: Option<String> = None;
    let first = initialise(file.is_some());
    if let Ok(text) = &first {
        file = Some(text.clone());
    }
    assert!(first.is_ok());
    assert_eq!(initialise(file.is_some()), Err(Error::ConfigAlreadyExists));
}

#[test]
fn view_hands_out_the_text_unchanged() {
    let raw = "  anything at all\r\n[not even a section\n".to_string();
    assert_eq!(view(Some(raw.clone())), Ok(raw));
}

#[test]
fn view_of_a_missing_file_fails() {
    assert_eq!(view(None), Err(Error::ConfigMissing));
}
