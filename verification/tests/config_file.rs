use aries_cli::error::Error;
use aries_cli::utils::config::{
    get_config_from_path, get_config_path, position_of, Configuration, Configurations, Platform,
};
use aries_cli::utils::text::{chars_of, line_spans, starts_with};

fn environment(name: &str, endpoint: &str, api_key: Option<&str>) -> Configuration {
    Configuration {
        name: name.to_string(),
        endpoint: endpoint.to_string(),
        api_key: api_key.map(|key| key.to_string()),
    }
}

#[test]
fn unix_path_lies_below_home() {
    assert_eq!(
        get_config_path(Platform::Unix, Some("/home/alice")),
        Ok("/home/alice/.config/aries-cli/config.ini".to_string())
    );
}

#[test]
fn unix_path_agrees_with_std_join() {
    for home in ["/home/alice", "/home/alice/", "/", "", "relative/dir"] {
        let joined = std::path::Path::new(home).join(".config/aries-cli/config.ini");
        assert_eq!(
            get_config_path(Platform::Unix, Some(home)),
            Ok(joined.to_str().unwrap().to_string())
        );
    }
}

#[test]
fn unix_path_needs_home() {
    assert_eq!(get_config_path(Platform::Unix, None), Err(Error::HomeNotFound));
}

#[test]
fn windows_path_is_fixed() {
    let expected = "C:\\Program Files\\Common Files\\aries-cli\\config.ini".to_string();
    assert_eq!(get_config_path(Platform::Windows, None), Ok(expected.clone()));
    assert_eq!(get_config_path(Platform::Windows, Some("C:\\Users\\alice")), Ok(expected));
}

#[test]
fn unsupported_platform_has_no_path() {
    assert_eq!(
        get_config_path(Platform::Unsupported, Some("/home/alice")),
        Err(Error::PlatformUnsupported)
    );
}

#[test]
fn both_path_functions_agree() {
    for platform in [Platform::Unix, Platform::Windows, Platform::Unsupported] {
        for home in [None, Some("/home/alice"), Some("")] {
            assert_eq!(
                aries_cli::modules::configuration::get_config_path(platform, home),
                get_config_path(platform, home)
            );
        }
    }
}

#[test]
fn environment_without_key_is_two_lines() {
    let text = environment("Default", "https://agent.community.animo.id", None).to_text();
    assert_eq!(text, "[Default]\nendpoint=https://agent.community.animo.id");
}

#[test]
fn environment_with_key_is_three_lines() {
    let text = environment("staging", "https://staging.example", Some("abc123")).to_text();
    assert_eq!(text, "[staging]\nendpoint=https://staging.example\napi_key=abc123");
}

#[test]
fn file_text_joins_environments_with_line_feeds() {
    let file = Configurations {
        configurations: vec![
            environment("Default", "https://a.example", None),
            environment("staging", "https://b.example", Some("k")),
        ],
    };
    assert_eq!(
        file.to_text(),
        "[Default]\nendpoint=https://a.example\n[staging]\nendpoint=https://b.example\napi_key=k"
    );
    assert_eq!(Configurations { configurations: vec![] }.to_text(), "");
}

#[test]
fn reading_gives_every_environment_in_order() {
    let text = "[Default]\nendpoint=https://a.example\n\n[staging]\nendpoint=https://b.example\napi_key=k\n";
    let read = Configurations::from_text(text).unwrap();
    assert_eq!(
        read.configurations,
        vec![
            environment("Default", "https://a.example", None),
            environment("staging", "https://b.example", Some("k")),
        ]
    );
}

#[test]
fn reading_an_empty_text_gives_no_environment() {
    assert_eq!(Configurations::from_text("").unwrap().configurations, vec![]);
    assert_eq!(Configurations::from_text("\n\n").unwrap().configurations, vec![]);
}

#[test]
fn reading_keeps_values_as_they_stand() {
    let text = "[my env]\nendpoint= http://x/?a=b&c=[d] \napi_key=";
    let read = Configurations::from_text(text).unwrap();
    assert_eq!(
        read.configurations,
        vec![environment("my env", " http://x/?a=b&c=[d] ", Some(""))]
    );
    let accented = Configurations::from_text("[été]\nendpoint=https://ü.example/☃").unwrap();
    assert_eq!(accented.configurations, vec![environment("été", "https://ü.example/☃", None)]);
}

#[test]
fn writing_then_reading_gives_the_same_environments() {
    let file = Configurations {
        configurations: vec![
            environment("Default", "https://a.example", None),
            environment("b]c[", "endpoint=x", Some("api_key=[y]")),
            environment("staging", "https://b.example", Some("")),
        ],
    };
    assert_eq!(Configurations::from_text(&file.to_text()), Some(file));
}

#[test]
fn malformed_texts_are_refused() {
    let malformed = [
        "endpoint=https://a.example",
        "[a]",
        "[a]\n[b]\nendpoint=https://b.example",
        "[a]\napi_key=k\nendpoint=https://a.example",
        "[a]\nendpoint=https://a.example\nendpoint=https://b.example",
        "[a]\nendpoint=https://a.example\napi_key=k\napi_key=l",
        "[a]\nendpoint=",
        "[]\nendpoint=https://a.example",
        "[a\nendpoint=https://a.example",
        "[a]\nendpoint=https://a.example\n[a]\nendpoint=https://b.example",
        "[a]\nendpoint=https://a.example\nunknown=1",
        "[a]\nEndpoint=https://a.example",
        " [a]\nendpoint=https://a.example",
        "api_key=k",
        "[a]\r\nendpoint=https://a.example",
    ];
    for text in malformed {
        assert_eq!(Configurations::from_text(text), None, "{:?}", text);
        assert_eq!(get_config_from_path(Some(text)), Err(Error::ConfigMalformed), "{:?}", text);
    }
}

#[test]
fn missing_file_is_told_apart_from_malformed_file() {
    assert_eq!(get_config_from_path(None), Err(Error::ConfigMissing));
    assert_eq!(get_config_from_path(Some("nonsense")), Err(Error::ConfigMalformed));
    assert_eq!(
        get_config_from_path(Some("[a]\nendpoint=b")),
        Ok(Configurations { configurations: vec![environment("a", "b", None)] })
    );
}

#[test]
fn find_gives_the_environment_of_the_name() {
    let file = Configurations {
        configurations: vec![
            environment("Default", "https://a.example", None),
            environment("staging", "https://b.example", Some("k")),
        ],
    };
    assert_eq!(file.find("staging"), Some(&file.configurations[1]));
    assert_eq!(file.find("Default"), Some(&file.configurations[0]));
    assert_eq!(file.find("default"), None);
    assert_eq!(position_of(&file.configurations, &"staging".to_string()), Some(1));
    assert_eq!(position_of(&file.configurations, &"".to_string()), None);
}

#[test]
fn find_gives_the_first_of_a_repeated_name() {
    let file = Configurations {
        configurations: vec![
            environment("a", "https://first.example", None),
            environment("a", "https://second.example", None),
        ],
    };
    assert_eq!(file.find("a"), Some(&file.configurations[0]));
}

#[test]
fn lines_are_the_pieces_between_line_feeds() {
    let chars = chars_of("ab\n\ncd\n");
    assert_eq!(chars, vec!['a', 'b', '\n', '\n', 'c', 'd', '\n']);
    assert_eq!(line_spans(&chars), vec![(0, 2), (3, 3), (4, 6), (7, 7)]);
    assert_eq!(line_spans(&chars_of("")), vec![(0, 0)]);
    assert_eq!(line_spans(&chars_of("é☃")), vec![(0, 2)]);
}

#[test]
fn starts_with_looks_at_the_given_range_only() {
    let chars = chars_of("xxendpoint=y");
    let key = chars_of("endpoint=");
    assert!(starts_with(&chars, 2, 12, &key));
    assert!(starts_with(&chars, 2, 11, &key));
    assert!(!starts_with(&chars, 2, 10, &key));
    assert!(!starts_with(&chars, 0, 12, &key));
    assert!(starts_with(&chars, 5, 5, &chars_of("")));
}

#[test]
fn platform_goes_by_the_family_name() {
    assert_eq!(Platform::from_family("unix"), Platform::Unix);
    assert_eq!(Platform::from_family("windows"), Platform::Windows);
    assert_eq!(Platform::from_family("wasm"), Platform::Unsupported);
    assert_eq!(Platform::from_family(""), Platform::Unsupported);
    assert_eq!(Platform::from_family("Unix"), Platform::Unsupported);
}

#[test]
fn validity_asks_for_name_and_endpoint_on_one_line() {
    assert!(environment("a", "b", None).is_valid());
    assert!(environment("a", "b", Some("")).is_valid());
    assert!(environment("[a]", "endpoint=b", Some("api_key=c")).is_valid());
    assert!(!environment("", "b", None).is_valid());
    assert!(!environment("a", "", None).is_valid());
    assert!(!environment("a\nb", "c", None).is_valid());
    assert!(!environment("a", "b\n", None).is_valid());
    assert!(!environment("a", "b", Some("c\nd")).is_valid());
}

#[test]
fn well_formed_files_have_valid_environments_and_no_name_twice() {
    let fit = Configurations {
        configurations: vec![environment("a", "x", None), environment("b", "x", Some("k"))],
    };
    assert!(fit.is_well_formed());
    assert!(Configurations { configurations: vec![] }.is_well_formed());
    let twice = Configurations {
        configurations: vec![
            environment("a", "x", None),
            environment("b", "y", None),
            environment("a", "z", None),
        ],
    };
    assert!(!twice.is_well_formed());
    let invalid = Configurations {
        configurations: vec![environment("a", "x", None), environment("b", "", None)],
    };
    assert!(!invalid.is_well_formed());
}

#[test]
fn what_is_read_is_well_formed() {
    let texts = ["", "[a]\nendpoint=b", "\n[a]\nendpoint=b\n\napi_key=\n[c]\nendpoint=d\n"];
    for text in texts {
        assert!(Configurations::from_text(text).unwrap().is_well_formed());
    }
}

#[test]
fn ill_formed_files_do_not_read_back() {
    let twice = Configurations {
        configurations: vec![environment("a", "x", None), environment("a", "y", None)],
    };
    assert_eq!(Configurations::from_text(&twice.to_text()), None);
    let broken = Configurations { configurations: vec![environment("a", "x\n[b]", None)] };
    assert_eq!(Configurations::from_text(&broken.to_text()), None);
}
