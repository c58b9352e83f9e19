use enso_temper::config::build_config;
use enso_temper::config::parse_max_request_size;
use enso_temper::config::parse_port;
use enso_temper::config::parse_u64;
use enso_temper::config::ConfigError;

#[test]
fn test_config_port_number() {
    let r = build_config(Some("not a number".to_string()), None, None, None);
    assert!(matches!(r, Err(ConfigError::InvalidPort)));
}

#[test]
fn test_config_etherscan_key() {
    let config = build_config(None, Some("a".to_string()), None, None).unwrap();
    assert_eq!(config.etherscan_key, Some("a".to_string()));

    let config = build_config(None, Some("".to_string()), None, None).unwrap();
    assert_eq!(config.etherscan_key, None);

    let config = build_config(None, None, None, None).unwrap();
    assert_eq!(config.etherscan_key, None);
}

#[test]
fn test_config_api_key() {
    let config = build_config(None, None, Some("a".to_string()), None).unwrap();
    assert_eq!(config.api_key, Some("a".to_string()));

    let config = build_config(None, None, Some("".to_string()), None).unwrap();
    assert_eq!(config.api_key, None);

    let config = build_config(None, None, None, None).unwrap();
    assert_eq!(config.api_key, None);
}

#[test]
fn test_parse_u64_values() {
    assert_eq!(parse_u64("0"), Some(0));
    assert_eq!(parse_u64("42"), Some(42));
    assert_eq!(parse_u64("18446744073709551615"), Some(u64::MAX));
    assert_eq!(parse_u64("18446744073709551616"), None);
    assert_eq!(parse_u64(""), None);
    assert_eq!(parse_u64("1x"), None);
    assert_eq!(parse_u64("-1"), None);
}

#[test]
fn test_parse_u64_leading_plus() {
    // One optional leading plus sign is accepted, as u64 parsing reads it.
    assert_eq!(parse_u64("+42"), Some(42));
    assert_eq!(parse_u64("+0"), Some(0));
    assert_eq!(parse_u64("+18446744073709551615"), Some(u64::MAX));
    assert_eq!(parse_u64("+"), None);
    assert_eq!(parse_u64("++1"), None);
    assert_eq!(parse_u64("+1x"), None);
}

#[test]
fn test_parse_port_values() {
    assert_eq!(parse_port(None), Ok(8080));
    assert_eq!(parse_port(Some("8081")), Ok(8081));
    assert_eq!(parse_port(Some("65535")), Ok(65535));
    assert_eq!(parse_port(Some("65536")), Err(ConfigError::InvalidPort));
    assert_eq!(parse_port(Some("")), Err(ConfigError::InvalidPort));
    assert_eq!(parse_port(Some("+80")), Ok(80));
    assert_eq!(parse_port(Some("+")), Err(ConfigError::InvalidPort));
}

#[test]
fn test_parse_max_request_size_values() {
    assert_eq!(parse_max_request_size(None), Ok(16 * 1024));
    assert_eq!(parse_max_request_size(Some("16")), Ok(16 * 1024));
    assert_eq!(parse_max_request_size(Some("1")), Ok(1024));
    // 2^54 kilobytes no longer fits a u64 byte count.
    assert_eq!(
        parse_max_request_size(Some("18014398509481984")),
        Err(ConfigError::InvalidMaxRequestSize)
    );
    assert_eq!(
        parse_max_request_size(Some("18014398509481983")),
        Ok(18014398509481983 * 1024)
    );
    assert_eq!(
        parse_max_request_size(Some("abc")),
        Err(ConfigError::InvalidMaxRequestSize)
    );
    assert_eq!(parse_max_request_size(Some("+16")), Ok(16 * 1024));
}

#[test]
fn test_config_all_fields() {
    let config = build_config(
        Some("9000".to_string()),
        Some("key1".to_string()),
        Some("key2".to_string()),
        Some("32".to_string()),
    )
    .unwrap();
    assert_eq!(config.port, 9000);
    assert_eq!(config.etherscan_key, Some("key1".to_string()));
    assert_eq!(config.api_key, Some("key2".to_string()));
    assert_eq!(config.max_request_size, 32 * 1024);
}

#[test]
fn test_config_port_with_sign() {
    let config = build_config(Some("+8081".to_string()), None, None, None).unwrap();
    assert_eq!(config.port, 8081);
}

#[test]
fn test_config_bad_max_request_size() {
    let r = build_config(None, None, None, Some("not a number".to_string()));
    assert!(matches!(r, Err(ConfigError::InvalidMaxRequestSize)));
}
