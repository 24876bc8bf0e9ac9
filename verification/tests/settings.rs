use cdk_blink::settings::{
    default_address, default_api_url, default_port, default_tls_cert_path, default_tls_key_path,
    parse_bool_env, BackendConfig, Config, ConfigError, Environment, FileBackend, FileConfig,
};
use cdk_blink::startup::{
    ca_file_name, certificate_chain, needs_certificates, Startup, TlsPaths,
};

fn no_file() -> FileConfig {
    FileConfig {
        backend: FileBackend { api_url: None, api_key: None, wallet_id: None },
        address: None,
        port: None,
        tls_enable: None,
        tls_cert_path: None,
        tls_key_path: None,
    }
}

fn no_env() -> Environment {
    Environment {
        blink_api_url: None,
        blink_api_key: None,
        blink_wallet_id: None,
        server_address: None,
        server_port: None,
        tls_enable: None,
        tls_cert_path: None,
        tls_key_path: None,
    }
}

fn text(s: &str) -> Option<String> {
    Some(s.to_string())
}

#[test]
fn test_load_defaults() {
    let cfg = Config::load(no_file(), no_env()).expect("load defaults");
    assert_eq!(cfg.backend.api_url, "https://api.blink.sv/graphql");
    assert!(cfg.backend.api_key.is_empty());
    assert_eq!(cfg.address, "0.0.0.0");
    assert_eq!(cfg.port, 50051);
    assert!(!cfg.tls_enable);
}

#[test]
fn test_load_from_toml_file() {
    let mut file = no_file();
    file.address = text("127.0.0.1");
    file.port = Some(12345);
    file.backend.api_url = text("https://example.test/graphql");
    file.backend.api_key = text("test-key");
    file.backend.wallet_id = text("test-wallet");

    let cfg = Config::load(file, no_env()).expect("load toml");
    assert_eq!(cfg.backend.api_url, "https://example.test/graphql");
    assert_eq!(cfg.backend.api_key, "test-key");
    assert_eq!(cfg.backend.wallet_id, "test-wallet");
    assert_eq!(cfg.address, "127.0.0.1");
    assert_eq!(cfg.port, 12345);
}

#[test]
fn test_env_overrides_take_precedence() {
    let mut file = no_file();
    file.port = Some(11111);
    file.backend.api_url = text("https://file.test/graphql");
    file.backend.api_key = text("file-key");

    let mut env = no_env();
    env.blink_api_url = text("https://env.test/graphql");
    env.blink_api_key = text("env-key");
    env.blink_wallet_id = text("env-wallet");
    env.server_port = text("54321");
    env.tls_enable = text("true");

    let cfg = Config::load(file, env).expect("load env");
    assert_eq!(cfg.backend.api_url, "https://env.test/graphql");
    assert_eq!(cfg.backend.api_key, "env-key");
    assert_eq!(cfg.backend.wallet_id, "env-wallet");
    assert_eq!(cfg.port, 54321);
    assert!(cfg.tls_enable);
}

#[test]
fn test_invalid_port_is_an_error() {
    let mut env = no_env();
    env.server_port = text("not-a-number");
    assert!(Config::load(no_file(), env).is_err());
}

#[test]
fn every_variable_overrides_its_setting() {
    let mut env = no_env();
    env.server_address = text("10.0.0.1");
    env.tls_cert_path = text("a.crt");
    env.tls_key_path = text("a.key");
    let mut file = no_file();
    file.address = text("1.1.1.1");
    file.tls_cert_path = text("b.crt");
    file.tls_key_path = text("b.key");
    file.tls_enable = Some(true);
    let cfg = Config::from_env(file, env).expect("load");
    assert_eq!(cfg.address, "10.0.0.1");
    assert_eq!(cfg.tls_cert_path, "a.crt");
    assert_eq!(cfg.tls_key_path, "a.key");
    assert!(cfg.tls_enable);
}

#[test]
fn a_bad_flag_is_named_in_the_error() {
    let mut env = no_env();
    env.tls_enable = text("maybe");
    let e = Config::load(no_file(), env).unwrap_err();
    assert!(matches!(&e, ConfigError::InvalidFlag { .. }));
    assert_eq!(e.message(), "invalid TLS_ENABLE value `maybe`; expected true or false");
}

#[test]
fn a_bad_port_is_named_in_the_error() {
    for bad in ["", "70000", "-1", "12x"] {
        let mut env = no_env();
        env.server_port = text(bad);
        let e = Config::load(no_file(), env).unwrap_err();
        assert!(matches!(&e, ConfigError::InvalidPort(_)));
        assert_eq!(e.message(), format!("invalid SERVER_PORT value `{}`", bad));
    }
}

#[test]
fn truth_values_are_read_in_either_case() {
    assert!(parse_bool_env("X", " TRUE ").expect("true"));
    assert!(!parse_bool_env("X", "False").expect("false"));
    assert!(parse_bool_env("X", "perhaps").is_err());
}

#[test]
fn defaults_have_their_documented_values() {
    assert_eq!(default_api_url(), "https://api.blink.sv/graphql");
    assert_eq!(default_address(), "0.0.0.0");
    assert_eq!(default_port(), 50051);
    let cfg = Config::default();
    assert_eq!(cfg.tls_cert_path, default_tls_cert_path());
    assert_eq!(cfg.tls_key_path, default_tls_key_path());
    assert_eq!(BackendConfig::default().wallet_id, "");
}

#[test]
fn starts_only_with_an_api_key() {
    let mut cfg = Config::default();
    assert_eq!(Startup::plan(&cfg), Startup::MissingApiKey);
    cfg.backend.api_key = "key".to_string();
    assert_eq!(
        Startup::plan(&cfg),
        Startup::Serve { address: "0.0.0.0:50051".to_string(), tls: None }
    );
    cfg.tls_enable = true;
    cfg.port = 7;
    cfg.tls_cert_path = "c".to_string();
    cfg.tls_key_path = "k".to_string();
    assert_eq!(
        Startup::plan(&cfg),
        Startup::Serve {
            address: "0.0.0.0:7".to_string(),
            tls: Some(TlsPaths { cert: "c".to_string(), key: "k".to_string() }),
        }
    );
}

#[test]
fn certificates_are_chained_with_their_issuer() {
    assert_eq!(certificate_chain(b"cert".to_vec(), None), b"cert".to_vec());
    assert_eq!(certificate_chain(b"cert".to_vec(), Some(b"ca".to_vec())), b"cert\nca".to_vec());
    assert_eq!(ca_file_name(Some("server")), "server.ca.pem");
    assert_eq!(ca_file_name(None), "cert.ca.pem");
    assert!(!needs_certificates(true, true));
    assert!(needs_certificates(true, false));
    assert!(needs_certificates(false, true));
}
