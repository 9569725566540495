use grf::repository::{backend_for, parse_scheme, select_backend};
use grf::repository::{BackendConfig, ConfigurationError, Scheme};
use grf::utils::{get_env_var, get_mandatory_env_var, get_pager};
use grf::utils::{EnvEntry, EnvValue, EnvVarError, Environment, GetPagerError, MandatoryVarError};
use grf::domain::{Pager, PagerError};

fn env(entries: &[(&str, Option<&str>)]) -> Environment {
    Environment {
        entries: entries
            .iter()
            .map(|(name, value)| EnvEntry {
                name: name.to_string(),
                value: match value {
                    Some(text) => EnvValue::Unicode(text.to_string()),
                    None => EnvValue::NotUnicode,
                },
            })
            .collect(),
    }
}

fn bolt_env() -> Environment {
    env(&[
        ("NEO4J_USER", Some("neo4j")),
        ("NEO4J_PASSWORD", Some("secret")),
        ("NEO4J_DB", Some("graph")),
    ])
}

#[test]
fn schemes_are_read_before_the_first_separator() {
    assert_eq!(parse_scheme("bolt://localhost:7687"), Some(Scheme::Bolt));
    assert_eq!(parse_scheme("http://localhost:8182/path"), Some(Scheme::Http));
    assert_eq!(parse_scheme("https://example.com"), Some(Scheme::Https));
    assert_eq!(parse_scheme("https://"), Some(Scheme::Https));
    assert_eq!(parse_scheme("bolt://a://b"), Some(Scheme::Bolt));
}

#[test]
fn other_uris_have_no_scheme() {
    assert_eq!(parse_scheme(""), None);
    assert_eq!(parse_scheme("bolt"), None);
    assert_eq!(parse_scheme("bolt:/localhost"), None);
    assert_eq!(parse_scheme("localhost:7687"), None);
    assert_eq!(parse_scheme("ftp://example.com"), None);
    assert_eq!(parse_scheme("BOLT://localhost"), None);
    assert_eq!(parse_scheme("://localhost"), None);
    assert_eq!(parse_scheme("x://bolt://localhost"), None);
    assert_eq!(parse_scheme(" bolt://localhost"), None);
    assert_eq!(parse_scheme("neo4j+s://localhost"), None);
    assert_eq!(parse_scheme("bölt://localhost"), None);
}

#[test]
fn bolt_needs_user_password_and_database() {
    assert_eq!(
        backend_for("bolt://localhost:7687", &bolt_env()),
        Ok(BackendConfig::Bolt {
            uri: "bolt://localhost:7687".to_string(),
            user: "neo4j".to_string(),
            password: "secret".to_string(),
            database: "graph".to_string(),
        })
    );
}

#[test]
fn first_missing_variable_is_named() {
    assert_eq!(
        backend_for("bolt://h", &env(&[])),
        Err(ConfigurationError::MissingConfiguration("NEO4J_USER".to_string()))
    );
    assert_eq!(
        backend_for("bolt://h", &env(&[("NEO4J_USER", Some("u")), ("NEO4J_DB", Some("d"))])),
        Err(ConfigurationError::MissingConfiguration("NEO4J_PASSWORD".to_string()))
    );
    assert_eq!(
        backend_for("bolt://h", &env(&[("NEO4J_USER", Some("u")), ("NEO4J_PASSWORD", Some("p"))])),
        Err(ConfigurationError::MissingConfiguration("NEO4J_DB".to_string()))
    );
    assert_eq!(
        backend_for("bolt://h", &env(&[("NEO4J_USER", Some("u")), ("NEO4J_PASSWORD", None)])),
        Err(ConfigurationError::InvalidEnvironment(EnvVarError::EnvVarIsInvalid(
            "NEO4J_PASSWORD".to_string()
        )))
    );
}

#[test]
fn managed_service_needs_nothing_from_the_environment() {
    assert_eq!(
        backend_for("https://db.example.com:8182", &env(&[])),
        Ok(BackendConfig::ManagedService { endpoint: "https://db.example.com:8182".to_string() })
    );
    assert_eq!(
        backend_for("http://localhost:8182", &env(&[])),
        Ok(BackendConfig::ManagedService { endpoint: "http://localhost:8182".to_string() })
    );
}

#[test]
fn unsupported_uri_is_refused_with_the_supported_schemes() {
    let error = backend_for("ftp://example.com", &bolt_env()).unwrap_err();
    assert_eq!(error, ConfigurationError::InvalidConnectionUri("ftp://example.com".to_string()));
    let message = error.message();
    assert!(message.contains("ftp://example.com"));
    assert!(message.contains("bolt://"));
    assert!(message.contains("http://"));
    assert!(message.contains("https://"));
    assert_eq!(
        backend_for("localhost", &bolt_env()),
        Err(ConfigurationError::InvalidConnectionUri("localhost".to_string()))
    );
}

#[test]
fn backend_is_selected_by_the_uri_of_the_environment() {
    assert_eq!(
        select_backend(&env(&[("DB_URI", Some("https://db.example.com"))])),
        Ok(BackendConfig::ManagedService { endpoint: "https://db.example.com".to_string() })
    );
    assert_eq!(
        select_backend(&env(&[])),
        Err(ConfigurationError::MissingConfiguration("DB_URI".to_string()))
    );
    assert_eq!(
        select_backend(&env(&[("DB_URI", None)])),
        Err(ConfigurationError::InvalidEnvironment(EnvVarError::EnvVarIsInvalid(
            "DB_URI".to_string()
        )))
    );
    assert_eq!(
        select_backend(&env(&[("DB_URI", Some("bolt://h")), ("NEO4J_USER", Some("u"))])),
        Err(ConfigurationError::MissingConfiguration("NEO4J_PASSWORD".to_string()))
    );
}

#[test]
fn variables_are_looked_up_by_name() {
    let e = env(&[("A", Some("1")), ("B", None), ("A", Some("2")), ("", Some("empty"))]);
    assert_eq!(get_env_var(&e, "A"), Ok(Some("1".to_string())));
    assert_eq!(get_env_var(&e, "B"), Err(EnvVarError::EnvVarIsInvalid("B".to_string())));
    assert_eq!(get_env_var(&e, "C"), Ok(None));
    assert_eq!(get_env_var(&e, ""), Ok(Some("empty".to_string())));
    assert_eq!(get_env_var(&e, "a"), Ok(None));
}

#[test]
fn mandatory_variable_must_be_set() {
    let e = env(&[("A", Some("1")), ("B", None)]);
    assert_eq!(get_mandatory_env_var(&e, "A"), Ok("1".to_string()));
    let missing = get_mandatory_env_var(&e, "C").unwrap_err();
    assert_eq!(missing, MandatoryVarError::NotSet("C".to_string()));
    assert_eq!(missing.message(), "C is not set");
    let invalid = get_mandatory_env_var(&e, "B").unwrap_err();
    assert_eq!(invalid, MandatoryVarError::Invalid(EnvVarError::EnvVarIsInvalid("B".to_string())));
    assert_eq!(invalid.message(), "environment variable \"B\" is not valid unicode");
    assert_eq!(
        EnvVarError::EnvVarIsInvalid("B".to_string()).message(),
        "environment variable \"B\" is not valid unicode"
    );
}

#[test]
fn pager_is_less_unless_overridden() {
    assert_eq!(get_pager(&env(&[])).unwrap().command(), "less");
    assert_eq!(get_pager(&env(&[("GRF_PAGER", Some("bat -p"))])).unwrap().command(), "bat -p");
    assert_eq!(
        get_pager(&env(&[("GRF_PAGER", Some(""))])),
        Err(GetPagerError::Pager(PagerError::EmptyCommand))
    );
    assert_eq!(
        get_pager(&env(&[("GRF_PAGER", None)])),
        Err(GetPagerError::Environment(EnvVarError::EnvVarIsInvalid("GRF_PAGER".to_string())))
    );
    assert_eq!(Pager::default().command(), "less");
    assert_eq!(Pager::custom("more").unwrap().command(), "more");
    assert_eq!(Pager::custom(""), Err(PagerError::EmptyCommand));
}

#[test]
fn pager_errors_speak_for_themselves() {
    assert_eq!(PagerError::EmptyCommand.message(), "the pager command is empty");
    assert_eq!(
        GetPagerError::Pager(PagerError::EmptyCommand).message(),
        "the pager command is empty"
    );
    assert_eq!(
        GetPagerError::Environment(EnvVarError::EnvVarIsInvalid("GRF_PAGER".to_string())).message(),
        "environment variable \"GRF_PAGER\" is not valid unicode"
    );
}
