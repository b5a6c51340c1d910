use tenzro_edge_core::config::{EnvValues, TenzroEdgeConfig};
use tenzro_edge_core::error::TenzroEdgeError;

fn env(rpc: Option<&str>, key: Option<&str>, chain: Option<&str>, timeout: Option<&str>, retries: Option<&str>) -> EnvValues {
    EnvValues {
        rpc_url: rpc.map(String::from),
        api_key: key.map(String::from),
        chain_id: chain.map(String::from),
        timeout_ms: timeout.map(String::from),
        max_retries: retries.map(String::from),
    }
}

fn config_error(v: EnvValues) -> String {
    match TenzroEdgeConfig::from_values(v) {
        Err(TenzroEdgeError::Config(m)) => m,
        other => panic!("expected a config error, got {:?}", other),
    }
}

#[test]
fn missing_rpc_url_is_refused() {
    assert_eq!(config_error(env(None, Some("k"), None, None, None)), "TENZRO_RPC_URL is required");
}

#[test]
fn defaults_apply_when_unset() {
    let c = TenzroEdgeConfig::from_values(env(Some("https://rpc.tenzro.network"), None, None, None, None)).unwrap();
    assert_eq!(c.endpoint, "https://rpc.tenzro.network");
    assert_eq!(c.api_key, None);
    assert_eq!(c.chain_id, 1);
    assert_eq!(c.timeout_ms, 30000);
    assert_eq!(c.max_retries, 3);
}

#[test]
fn values_are_read() {
    let c = TenzroEdgeConfig::from_values(env(Some("http://n"), Some("key"), Some("1337"), Some("+250"), Some("0"))).unwrap();
    assert_eq!(c.api_key.as_deref(), Some("key"));
    assert_eq!(c.chain_id, 1337);
    assert_eq!(c.timeout_ms, 250);
    assert_eq!(c.max_retries, 0);
    let c = TenzroEdgeConfig::from_values(env(Some("http://n"), None, Some("18446744073709551615"), None, Some("4294967295"))).unwrap();
    assert_eq!(c.chain_id, u64::MAX);
    assert_eq!(c.max_retries, u32::MAX);
}

#[test]
fn bad_numbers_are_refused_in_order() {
    assert_eq!(
        config_error(env(Some("u"), None, Some("abc"), Some("x"), None)),
        "TENZRO_CHAIN_ID: invalid digit found in string"
    );
    assert_eq!(
        config_error(env(Some("u"), None, Some(""), None, None)),
        "TENZRO_CHAIN_ID: cannot parse integer from empty string"
    );
    assert_eq!(
        config_error(env(Some("u"), None, None, Some("18446744073709551616"), None)),
        "TENZRO_TIMEOUT_MS: number too large to fit in target type"
    );
    assert_eq!(
        config_error(env(Some("u"), None, None, Some("-1"), None)),
        "TENZRO_TIMEOUT_MS: invalid digit found in string"
    );
    assert_eq!(
        config_error(env(Some("u"), None, None, None, Some("4294967296"))),
        "TENZRO_MAX_RETRIES: number too large to fit in target type"
    );
    assert_eq!(
        config_error(env(Some("u"), None, None, None, Some("+"))),
        "TENZRO_MAX_RETRIES: invalid digit found in string"
    );
    assert_eq!(
        config_error(env(Some("u"), None, None, None, Some(" 3"))),
        "TENZRO_MAX_RETRIES: invalid digit found in string"
    );
}

#[test]
fn edge_error_messages() {
    assert_eq!(TenzroEdgeError::Sdk("x".to_string()).message(), "tenzro sdk: x");
    assert_eq!(TenzroEdgeError::Store("y".to_string()).message(), "local store: y");
    assert_eq!(TenzroEdgeError::Config("z".to_string()).message(), "config: z");
    assert_eq!(TenzroEdgeError::NotYetSupported("w").message(), "not yet supported by tenzro-sdk: w");
}
