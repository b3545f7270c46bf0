use realestate::config::{parse_port, Config};
use realestate::error::AppError;

#[test]
fn defaults_apply_when_unset() {
    let c = Config::from_values(None, None, None, None).unwrap();
    assert_eq!(c.database_url, "sqlite:./data/realestate.db");
    assert_eq!(c.host, "0.0.0.0");
    assert_eq!(c.port, 3000);
    assert_eq!(c.cors_origin, "http://localhost:5173");
}

#[test]
fn given_values_are_kept() {
    let c = Config::from_values(
        Some("sqlite::memory:".to_string()),
        Some("127.0.0.1".to_string()),
        Some("8080".to_string()),
        Some("https://example.org".to_string()),
    )
    .unwrap();
    assert_eq!(c.database_url, "sqlite::memory:");
    assert_eq!(c.host, "127.0.0.1");
    assert_eq!(c.port, 8080);
    assert_eq!(c.cors_origin, "https://example.org");
}

#[test]
fn invalid_port_is_a_config_error() {
    for bad in ["", "abc", "70000", "65536", "-1", "+", "80 "] {
        match Config::from_values(None, None, Some(bad.to_string()), None) {
            Err(AppError::Config(m)) => assert_eq!(m, "Invalid PORT"),
            other => panic!("{:?} gave {:?}", bad, other),
        }
    }
}

#[test]
fn port_parsing_agrees_with_std() {
    for text in ["0", "65535", "65536", "+80", "007", "", "+", "-0", "1a", "99999999999"] {
        assert_eq!(parse_port(text), text.parse::<u16>().ok(), "{:?}", text);
    }
}
