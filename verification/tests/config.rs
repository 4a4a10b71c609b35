use req_response_exporter::config::{
    default_ack_timeout_ms, default_listen_addr, default_max_items, default_max_total_bytes,
    default_validate_otlp, Config, ConfigError, PartialConfig, REQ_RESPONSE_EXPORTER_URN,
};
use req_response_exporter::exporter::ReqResponseExporter;
use serde_json::Value;

fn partial(json: &Value) -> PartialConfig {
    let number = |name: &str| json.get(name).map(|value| value.as_u64().unwrap());
    let flag = |name: &str| json.get(name).map(|value| value.as_bool().unwrap());
    PartialConfig {
        listen_addr: json.get("listen_addr").map(|addr| addr.as_str().unwrap().to_string()),
        max_items: number("max_items").map(|limit| limit as usize),
        max_total_bytes: number("max_total_bytes").map(|limit| limit as usize),
        ack_timeout_ms: number("ack_timeout_ms"),
        ack_upstream_on_enqueue: flag("ack_upstream_on_enqueue"),
        validate_otlp: flag("validate_otlp"),
    }
}

#[test]
fn test_config_deserialization() {
    // Only provide listen_addr; everything else should take defaults.
    let json: Value = serde_json::from_str(r#"{ "listen_addr": "127.0.0.1:0" }"#).unwrap();

    let config: Config = Config::from_partial(partial(&json));

    assert_eq!(config.listen_addr, "127.0.0.1:0");
    assert_eq!(config.max_items, default_max_items());
    assert_eq!(config.max_total_bytes, default_max_total_bytes());
    assert_eq!(config.ack_timeout_ms, default_ack_timeout_ms());
    assert_eq!(config.ack_upstream_on_enqueue, false);
    assert_eq!(config.validate_otlp, true);
}

#[test]
fn test_urn_constant() {
    assert_eq!(REQ_RESPONSE_EXPORTER_URN, "urn:microsoft:exporter:req-response");
}

#[test]
fn defaults_have_their_documented_values() {
    assert_eq!(default_listen_addr(), "0.0.0.0:9000");
    assert_eq!(default_max_items(), 10_000);
    assert_eq!(default_max_total_bytes(), 67_108_864);
    assert_eq!(default_ack_timeout_ms(), 30_000);
    assert_eq!(default_validate_otlp(), true);

    let config = Config::from_partial(partial(&serde_json::from_str("{}").unwrap()));
    assert_eq!(config.listen_addr, "0.0.0.0:9000");
}

#[test]
fn given_settings_are_kept() {
    let json: Value = serde_json::from_str(
        r#"{
            "listen_addr": "[::1]:4", "max_items": 3, "max_total_bytes": 5,
            "ack_timeout_ms": 0, "ack_upstream_on_enqueue": true, "validate_otlp": false
        }"#,
    )
    .unwrap();
    let exporter = ReqResponseExporter::from_config(Ok(partial(&json))).unwrap();
    let config = exporter.config().clone();
    assert_eq!(config.listen_addr, "[::1]:4");
    assert_eq!(config.max_items, 3);
    assert_eq!(config.max_total_bytes, 5);
    assert_eq!(config.ack_timeout_ms, 0);
    assert_eq!(config.ack_wait_ms(), 1);
    assert!(config.ack_upstream_on_enqueue);
    assert!(!config.validate_otlp);
}

#[test]
fn unparsable_configuration_is_refused() {
    match ReqResponseExporter::from_config(Err("unknown field `port`".to_string())) {
        Err(ConfigError::InvalidUserConfig { error }) => assert_eq!(error, "unknown field `port`"),
        Ok(_) => panic!("expected an error"),
    }
}

#[test]
fn bad_listen_address_is_named() {
    let ConfigError::InvalidUserConfig { error } =
        ConfigError::invalid_listen_addr("invalid socket address syntax");
    assert_eq!(error, "invalid listen_addr: invalid socket address syntax");
}
