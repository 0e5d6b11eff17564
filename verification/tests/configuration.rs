use solana_swap::config::{load_config, ConfigMissing, SwapConfig};

#[test]
fn both_values_make_a_configuration() {
    assert_eq!(
        load_config(Some("key".to_string()), Some("https://rpc.example".to_string())),
        Ok(SwapConfig {
            signing_key: "key".to_string(),
            rpc_endpoint: "https://rpc.example".to_string(),
        })
    );
}

#[test]
fn missing_key_is_reported_first() {
    assert_eq!(load_config(None, None), Err(ConfigMissing::SigningKey));
    assert_eq!(load_config(None, Some("url".to_string())), Err(ConfigMissing::SigningKey));
}

#[test]
fn missing_endpoint_is_reported() {
    assert_eq!(load_config(Some("key".to_string()), None), Err(ConfigMissing::RpcEndpoint));
}
