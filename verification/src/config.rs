//! The configuration that a swap starts from.

use vstd::prelude::*;

verus! {

/// A configuration value that is required and absent.
#[derive(Clone, Copy, Debug, PartialEq, Eq, Structural)]
pub enum ConfigMissing {
    /// The private key of the signer, in its encoded text form.
    SigningKey,
    /// The URL of the network endpoint.
    RpcEndpoint,
}

/// What a swap needs to know of its surroundings.
#[derive(Clone, Debug, PartialEq, Eq)]
pub struct SwapConfig {
    pub signing_key: String,
    pub rpc_endpoint: String,
}

/// The configuration made of two values that may be absent: the signing key
/// is asked for first.
pub open spec fn configured(signing_key: Option<String>, rpc_endpoint: Option<String>) -> Result<
    SwapConfig,
    ConfigMissing,
> {
    match signing_key {
        None => Err(ConfigMissing::SigningKey),
        Some(signing_key) => match rpc_endpoint {
            None => Err(ConfigMissing::RpcEndpoint),
            Some(rpc_endpoint) => Ok(SwapConfig { signing_key, rpc_endpoint }),
        },
    }
}

/// Makes a configuration from the two values as they were found. An absent
/// value is fatal: no swap is begun without both.
pub fn load_config(signing_key: Option<String>, rpc_endpoint: Option<String>) -> (r: Result<
    SwapConfig,
    ConfigMissing,
>)
    ensures
        r == configured(signing_key, rpc_endpoint),
{
    match signing_key {
        None => Err(ConfigMissing::SigningKey),
        Some(signing_key) => match rpc_endpoint {
            None => Err(ConfigMissing::RpcEndpoint),
            Some(rpc_endpoint) => Ok(SwapConfig { signing_key, rpc_endpoint }),
        },
    }
}

} // verus!
