use aries_cli::error::Error;

fn all_errors() -> Vec<Error> {
    vec![
        Error::PlatformUnsupported,
        Error::HomeNotFound,
        Error::ConfigAlreadyExists,
        Error::ConfigMissing,
        Error::ConfigMalformed,
        Error::EnvironmentNotFound,
        Error::NoEndpointResolved,
        Error::NoFlagSupplied("configuration".to_string()),
        Error::ConflictingFlags("configuration".to_string()),
        Error::AgentUnreachable,
    ]
}

#[test]
fn each_error_has_its_own_message() {
    let errors = all_errors();
    for (i, one) in errors.iter().enumerate() {
        assert!(!one.message().is_empty());
        for other in &errors[i + 1..] {
            assert_ne!(one.message(), other.message());
        }
    }
}

#[test]
fn messages_name_the_command() {
    assert_eq!(
        Error::NoFlagSupplied("configuration".to_string()).message(),
        "No flag supplied for the command: configuration"
    );
    assert_eq!(
        Error::ConflictingFlags("configuration".to_string()).message(),
        "Mutually exclusive flags supplied for the command: configuration"
    );
    assert_eq!(
        Error::NoEndpointResolved.message(),
        "No endpoint supplied: pass --endpoint or add one to the configuration file."
    );
}

#[test]
fn every_error_exits_with_a_failure_status() {
    for error in all_errors() {
        assert_eq!(error.exit_code(), 1);
    }
}

#[test]
fn clone_gives_an_equal_error() {
    for error in all_errors() {
        assert_eq!(error.clone(), error);
    }
}
