use senseshift::proxy_config::{
    default_log_file, default_log_level, default_reconnect_interval, default_udp_addresses,
    ConfigError, ForwardConfig, LoggingConfig, ProxyConfig, RouteConfig, TransportConfig,
};

#[test]
fn defaults() {
    assert_eq!(default_udp_addresses(), vec!["127.0.0.1:8000".to_string()]);
    assert_eq!(default_reconnect_interval(), 5);
    assert_eq!(default_log_level(), "info");
    assert_eq!(default_log_file(), "osc-proxy.log");
    let logging = LoggingConfig::default();
    assert_eq!(logging.level, "info");
    assert!(!logging.file);
    assert_eq!(logging.file_path, "osc-proxy.log");
}

#[test]
fn sample_is_valid() {
    let sample = ProxyConfig::create_sample();
    assert_eq!(sample.validate(), Ok(()));
    assert_eq!(sample.targets.len(), 3);
    assert_eq!(sample.routes.len(), 3);
    assert_eq!(sample.server.udp, vec!["127.0.0.1:8000".to_string()]);
    assert_eq!(sample.targets[1].0, "touchdesigner");
    assert!(matches!(&sample.targets[1].1.transport, TransportConfig::Tcp { to } if to == "127.0.0.1:9001"));
    assert_eq!(sample.targets[2].1.reconnect_interval, 10);
    assert_eq!(sample.routes[1].forward[0].to, "ableton");
    assert_eq!(sample.routes[1].forward[0].rewrite.as_deref(), Some("/live/$param"));
}

#[test]
fn unknown_target_is_reported() {
    let mut config = ProxyConfig::create_sample();
    config.routes[1].forward.push(ForwardConfig { to: "nowhere".to_string(), rewrite: None });
    config.routes[2].forward.push(ForwardConfig { to: "elsewhere".to_string(), rewrite: None });
    assert_eq!(config.validate(), Err(ConfigError::UnknownTarget("nowhere".to_string())));
}

#[test]
fn invalid_pattern_is_reported() {
    let mut config = ProxyConfig::create_sample();
    config.routes.push(RouteConfig {
        pattern: "(unclosed".to_string(),
        stop_propagation: true,
        forward: vec![],
        description: None,
    });
    assert_eq!(config.validate(), Err(ConfigError::InvalidPattern("(unclosed".to_string())));
}

#[test]
fn unknown_target_comes_before_invalid_pattern() {
    let mut config = ProxyConfig::create_sample();
    config.routes.push(RouteConfig {
        pattern: "(unclosed".to_string(),
        stop_propagation: false,
        forward: vec![ForwardConfig { to: "ghost".to_string(), rewrite: None }],
        description: None,
    });
    assert_eq!(config.validate(), Err(ConfigError::UnknownTarget("ghost".to_string())));
}

#[test]
fn missing_server_address_is_reported() {
    let mut config = ProxyConfig::create_sample();
    config.server.udp.clear();
    assert_eq!(config.validate(), Err(ConfigError::NoServerAddress));
    config.server.tcp.push("127.0.0.1:7000".to_string());
    assert_eq!(config.validate(), Ok(()));
}

#[test]
fn sample_target_names_are_distinct() {
    let sample = ProxyConfig::create_sample();
    let names: Vec<&str> = sample.targets.iter().map(|(n, _)| n.as_str()).collect();
    assert_eq!(names, vec!["vrchat", "touchdesigner", "ableton"]);
}
