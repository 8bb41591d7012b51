use podkit_server::config::{https_port, ingress_port, listen_address, parse_i32_value, port_or, ServerConfig};
use podkit_server::error::{ConfigError, ServerError};

fn env(pairs: &[(&str, &str)]) -> Vec<(String, String)> {
    pairs.iter().map(|(k, v)| (k.to_string(), v.to_string())).collect()
}

fn required() -> Vec<(&'static str, &'static str)> {
    vec![("DATABASE_URL", "postgres://db"), ("JWT_SECRET", "s3cret"), ("AGE_SECRET_KEY", "AGE-KEY")]
}

#[test]
fn defaults_apply_when_only_required_settings_are_set() {
    let c = ServerConfig::load(&env(&required())).unwrap();
    assert_eq!(c.database_url, "postgres://db");
    assert_eq!(c.jwt_secret, "s3cret");
    assert_eq!(c.age_secret_key, "AGE-KEY");
    assert_eq!(c.host, "0.0.0.0");
    assert_eq!(c.port, 8080);
    assert_eq!(c.ingress_port, 80);
    assert_eq!(c.https_port, 443);
    assert_eq!(c.acme_email, None);
    assert_eq!(c.dashboard_origins, "http://localhost:5173,http://localhost:4173");
    assert_eq!(listen_address(&c), "0.0.0.0:8080");
}

#[test]
fn settings_override_defaults() {
    let mut pairs = required();
    pairs.extend([
        ("HOST", "127.0.0.1"),
        ("PORT", "9000"),
        ("INGRESS_PORT", "8081"),
        ("HTTPS_PORT", "+8443"),
        ("ACME_EMAIL", "ops@example.com"),
        ("DASHBOARD_ORIGINS", "https://dash.example.com"),
    ]);
    let c = ServerConfig::load(&env(&pairs)).unwrap();
    assert_eq!(c.host, "127.0.0.1");
    assert_eq!(c.port, 9000);
    assert_eq!(c.ingress_port, 8081);
    assert_eq!(c.https_port, 8443);
    assert_eq!(c.acme_email.as_deref(), Some("ops@example.com"));
    assert_eq!(c.dashboard_origins, "https://dash.example.com");
    assert_eq!(listen_address(&c), "127.0.0.1:9000");
}

#[test]
fn missing_required_setting_is_named() {
    let err = ServerConfig::load(&env(&[("DATABASE_URL", "x"), ("AGE_SECRET_KEY", "k")])).unwrap_err();
    assert_eq!(err, ServerError::Forgeconf(ConfigError::Missing("JWT_SECRET".to_string())));
    assert_eq!(err.status_code(), 500);
}

#[test]
fn malformed_port_is_named() {
    let mut pairs = required();
    pairs.push(("PORT", "80a"));
    let err = ServerConfig::load(&env(&pairs)).unwrap_err();
    assert_eq!(err, ServerError::Forgeconf(ConfigError::Invalid("PORT".to_string())));
}

#[test]
fn integers_parse_like_str_parse() {
    for s in ["0", "42", "-42", "+7", "2147483647", "-2147483648", "007", "", "-", "+", " 1", "1 ", "2147483648", "-2147483649", "99999999999999999999", "1_000", "٣"] {
        assert_eq!(parse_i32_value(s), s.parse::<i32>().ok(), "input {s:?}");
    }
}

#[test]
fn out_of_range_ports_fall_back() {
    assert_eq!(port_or(8080, 80), 8080);
    assert_eq!(port_or(65536, 80), 80);
    assert_eq!(port_or(-1, 443), 443);
    let mut pairs = required();
    pairs.extend([("INGRESS_PORT", "70000"), ("HTTPS_PORT", "-5")]);
    let c = ServerConfig::load(&env(&pairs)).unwrap();
    assert_eq!(ingress_port(&c), 80);
    assert_eq!(https_port(&c), 443);
}
