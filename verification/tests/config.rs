use tortuga::config::{
    default_interval, default_state_file, default_timeout, validate_config, Config, ConfigError,
    EndpointConfig, GlobalConfig,
};

fn make_ep(name: &str) -> EndpointConfig {
    EndpointConfig {
        name: name.to_string(),
        url: "https://example.com".to_string(),
        interval_secs: default_interval(),
        expected_status: None,
        timeout_secs: default_timeout(),
        webhook_url: None,
        telegram_chat_id: None,
    }
}

#[test]
fn defaults_match_documentation() {
    assert_eq!(default_state_file(), "state.json");
    assert_eq!(default_interval(), 30);
    assert_eq!(default_timeout(), 10);
}

#[test]
fn default_global_config_uses_default_state_file() {
    let g = GlobalConfig::default();
    assert_eq!(g.state_file, "state.json");
    assert!(g.webhook_url.is_none());
    assert!(g.telegram_bot_token.is_none());
    assert!(g.telegram_chat_id.is_none());
}

#[test]
fn config_without_endpoints_is_refused() {
    let cfg = Config { global: GlobalConfig::default(), endpoints: vec![] };
    let err = validate_config(&cfg).unwrap_err();
    assert_eq!(err, ConfigError::NoEndpoints);
    assert_eq!(err.message(), "No endpoints defined in config");
}

#[test]
fn config_with_endpoints_is_accepted() {
    let cfg = Config { global: GlobalConfig::default(), endpoints: vec![make_ep("a"), make_ep("b")] };
    assert!(validate_config(&cfg).is_ok());
}
