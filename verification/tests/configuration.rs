use axum_api_template::configuration::{
    configuration_sources, environment_file_name, ConfigurationSource, environment_from_setting, ApplicationSettings, ConfigurationError, Environment,
    Settings,
};
use axum_api_template::startup::listen_address;
use axum_api_template::text::to_lowercase;
use std::convert::TryFrom;

#[test]
fn as_str_names() {
    assert_eq!(Environment::Local.as_str(), "local");
    assert_eq!(Environment::Production.as_str(), "production");
}

#[test]
fn names_parse_back() {
    for e in [Environment::Local, Environment::Production] {
        assert_eq!(Environment::parse(e.as_str()), Ok(e));
        assert_eq!(e.as_str().parse::<Environment>(), Ok(e));
    }
}

#[test]
fn parse_ignores_case() {
    assert_eq!(Environment::parse("PRODUCTION"), Ok(Environment::Production));
    assert_eq!(Environment::parse("Local"), Ok(Environment::Local));
    assert_eq!("LoCaL".parse::<Environment>(), Ok(Environment::Local));
}

#[test]
fn unsupported_environment_message() {
    assert_eq!(
        Environment::parse("Staging"),
        Err("staging is not a supported environment. Use either `local` or `production`.".to_string())
    );
    assert_eq!(
        Environment::parse(""),
        Err(" is not a supported environment. Use either `local` or `production`.".to_string())
    );
    assert!(Environment::parse(" local").is_err());
}

#[test]
fn try_from_string_parses() {
    assert_eq!(Environment::try_from("production".to_string()), Ok(Environment::Production));
    assert!(Environment::try_from("prod".to_string()).is_err());
}

#[test]
fn parse_lowercase_is_exact() {
    assert_eq!(Environment::parse_lowercase("local"), Ok(Environment::Local));
    assert!(Environment::parse_lowercase("LOCAL").is_err());
}

#[test]
fn lowercase_wrapper_lowercases() {
    assert_eq!(to_lowercase("PrOdUcTiOn"), "production");
    assert_eq!(to_lowercase("ÄB"), "äb");
}

#[test]
fn environment_defaults_to_local() {
    assert_eq!(environment_from_setting(None).unwrap(), Environment::Local);
    assert_eq!(environment_from_setting(Some("Production".to_string())).unwrap(), Environment::Production);
    match environment_from_setting(Some("qa".to_string())) {
        Err(ConfigurationError::InvalidEnvironment(m)) => {
            assert_eq!(m, "qa is not a supported environment. Use either `local` or `production`.")
        }
        _ => panic!("expected an invalid environment"),
    }
}

#[test]
fn environment_file_names() {
    assert_eq!(environment_file_name(Environment::Local), "local.yaml");
    assert_eq!(environment_file_name(Environment::Production), "production.yaml");
}

#[test]
fn configuration_error_texts() {
    let e = ConfigurationError::current_dir_failure("permission denied");
    assert_eq!(e.to_display_string(), "I/O error: Failed to determine the current directory: permission denied");
    let e = ConfigurationError::InvalidEnvironment("bad".to_string());
    assert_eq!(e.to_display_string(), "Invalid environment: bad");
    let e = ConfigurationError::from(config::ConfigError::Message("missing field".to_string()));
    assert_eq!(e.to_display_string(), "Configuration error: missing field");
    assert!(matches!(e, ConfigurationError::Config(_)));
}

#[test]
fn listen_address_joins_host_and_port() {
    let settings = Settings {
        application: ApplicationSettings {
            port: 8000,
            host: "127.0.0.1".to_string(),
            base_url: "http://127.0.0.1".to_string(),
        },
    };
    assert_eq!(listen_address(&settings), "127.0.0.1:8000");
    let mut s = settings.clone();
    s.application.port = 0;
    assert_eq!(listen_address(&s), "127.0.0.1:0");
    s.application.port = 65535;
    s.application.host = "0.0.0.0".to_string();
    assert_eq!(listen_address(&s), "0.0.0.0:65535");
}

#[test]
fn listen_address_port_matches_to_string() {
    for port in [0u16, 1, 9, 10, 99, 100, 1000, 12345, 65535] {
        let settings = Settings {
            application: ApplicationSettings { port, host: "h".to_string(), base_url: String::new() },
        };
        assert_eq!(listen_address(&settings), format!("h:{}", port));
    }
}

#[test]
fn sources_in_order_of_precedence() {
    let sources = configuration_sources(Environment::Production);
    assert_eq!(
        sources,
        vec![
            ConfigurationSource::File("base.yaml".to_string()),
            ConfigurationSource::File("production.yaml".to_string()),
            ConfigurationSource::EnvironmentVariables {
                prefix: "APP".to_string(),
                prefix_separator: "_".to_string(),
                separator: "__".to_string(),
            },
        ]
    );
    assert_eq!(configuration_sources(Environment::Local)[1], ConfigurationSource::File("local.yaml".to_string()));
}
