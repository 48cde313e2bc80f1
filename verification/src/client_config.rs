//! Client CLI configuration: the server URL and the operator's
//! long-term signing identity, resolved from environment values.

use vstd::prelude::*;
use crate::crypto;
use crate::error::Error;
use crate::agent_config::{spec_default_server_url, spec_env_or};

verus! {

/// The raw environment values the client's configuration is resolved
/// from; `None` stands for an unset variable.
pub struct ClientEnv {
    /// `SERVER_URL`
    pub server_url: Option<String>,
    /// `IDENTITY_PRIVATE_KEY` (base64 Ed25519 seed) - mandatory.
    pub identity_private_key: Option<String>,
}

/// The operator client's resolved configuration.
pub struct Config {
    pub server_url: String,
    /// 32-byte Ed25519 public key derived from the private seed.
    pub identity_public_key: Vec<u8>,
    /// 32-byte Ed25519 private seed.
    pub identity_private_key: Vec<u8>,
}

impl Config {
    /// A resolved configuration's invariant: the seed its fixed size
    /// and the public identity derived from it.
    pub open spec fn wf(&self) -> bool {
        &&& self.identity_private_key@.len() == 32
        &&& self.identity_public_key@ == crypto::spec_ed25519_public_of(
            self.identity_private_key@,
        )
    }

    /// Resolves configuration from the environment snapshot.  The
    /// identity private key is mandatory: its absence tells the
    /// operator to first generate a keypair, and it must be valid
    /// base64 of a 32-byte seed.
    pub fn load(env: ClientEnv) -> (r: Result<Config, Error>)
        ensures
            r is Ok <==> ({
                &&& env.identity_private_key matches Some(v)
                &&& crypto::spec_base64_decode(v@) matches Some(s) && s.len() == 32
            }),
            env.identity_private_key is None ==> (r matches Err(e)
                && e matches Error::Internal(m)
                && m@ == "IDENTITY_PRIVATE_KEY env var is not set. Run `client identity` to generate a keypair, then set the env var."@),
            env.identity_private_key matches Some(v) ==> {
                &&& (crypto::spec_base64_decode(v@) is None ==> (r matches Err(e)
                    && e matches Error::Internal(m)
                    && m@ == "IDENTITY_PRIVATE_KEY decode error"@))
                &&& ((crypto::spec_base64_decode(v@) matches Some(s) && s.len() != 32)
                    ==> (r matches Err(e) && e matches Error::Internal(m)
                    && m@ == "IDENTITY_PRIVATE_KEY parse error"@))
            },
            r matches Ok(c) ==> {
                &&& c.wf()
                &&& c.server_url@ == spec_env_or(env.server_url, spec_default_server_url())
                &&& env.identity_private_key matches Some(v)
                    && c.identity_private_key@ == crypto::spec_base64_decode(v@).unwrap()
            },
    {
        let server_url = match env.server_url {
            Some(s) => s,
            None => String::from_str("http://127.0.0.1:8080"),
        };

        let private_key_b64 = match env.identity_private_key {
            Some(s) => s,
            None => {
                return Err(Error::Internal(String::from_str(
                    "IDENTITY_PRIVATE_KEY env var is not set. Run `client identity` to generate a keypair, then set the env var.",
                )));
            },
        };
        let identity_private_key = match crypto::base64_decode(private_key_b64.as_str()) {
            Some(b) => b,
            None => {
                return Err(Error::Internal(String::from_str(
                    "IDENTITY_PRIVATE_KEY decode error",
                )));
            },
        };
        if identity_private_key.len() != 32 {
            return Err(Error::Internal(String::from_str("IDENTITY_PRIVATE_KEY parse error")));
        }
        let identity_public_key = crypto::ed25519_public_of(identity_private_key.as_slice());

        Ok(Config { server_url, identity_public_key, identity_private_key })
    }
}

/// The server URL for call sites that need only it: the environment
/// value where set, the built-in default otherwise.
pub fn server_url(env_value: Option<String>) -> (r: String)
    ensures
        r@ == spec_env_or(env_value, spec_default_server_url()),
{
    match env_value {
        Some(s) => s,
        None => String::from_str("http://127.0.0.1:8080"),
    }
}

} // verus!
