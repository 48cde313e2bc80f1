//! Agent configuration: identifiers, the default server URL, and the
//! resolution of key material from environment values.
//!
//! The process environment is read by the unverified shell and handed
//! in as an [`AgentEnv`] snapshot; everything decided from it is
//! verified here.

use vstd::prelude::*;
use crate::crypto;
use crate::error::Error;

verus! {

/// The filename the agent installs itself under.
pub fn agent_install_file() -> (r: &'static str)
    ensures
        r@ == "ch13_agent"@,
{
    "ch13_agent"
}

/// The name the per-host single-instance lock is keyed by.
pub fn single_instance_identifier() -> (r: &'static str)
    ensures
        r@ == "ch13_agent"@,
{
    "ch13_agent"
}

/// The install subdirectory under the OS per-user data directory.
pub fn install_directory() -> (r: &'static str)
    ensures
        r@ == "bhr_ch13"@,
{
    "bhr_ch13"
}

/// The server URL used when the environment supplies none.
pub open spec fn spec_default_server_url() -> Seq<char> {
    "http://127.0.0.1:8080"@
}

/// An environment value, or the given default where it is unset.
pub open spec fn spec_env_or(v: Option<String>, d: Seq<char>) -> Seq<char> {
    match v {
        Some(s) => s@,
        None => d,
    }
}

/// The 32-byte all-zero placeholder meaning "no prekey supplied".
pub open spec fn spec_zero_prekey() -> Seq<u8> {
    Seq::new(32, |i: int| 0u8)
}

/// The raw environment values the agent's configuration is resolved
/// from; `None` stands for an unset variable.
pub struct AgentEnv {
    /// `SERVER_URL`
    pub server_url: Option<String>,
    /// `AGENT_IDENTITY_PRIVATE_KEY` (base64 Ed25519 seed)
    pub identity_private_key: Option<String>,
    /// `AGENT_PREKEY_PRIVATE_KEY` (base64 X25519 scalar)
    pub prekey_private_key: Option<String>,
    /// `CLIENT_IDENTITY_PUBLIC_KEY` (base64 Ed25519 public key)
    pub client_identity_public_key: Option<String>,
}

/// The agent's resolved configuration.
pub struct Config {
    /// 32-byte Ed25519 public key derived from the private seed.
    pub identity_public_key: Vec<u8>,
    /// 32-byte Ed25519 private seed.
    pub identity_private_key: Vec<u8>,
    /// 32-byte X25519 private scalar, or all zeroes when the
    /// environment supplied none; disk or generation then decides.
    pub private_prekey: Vec<u8>,
    /// 32-byte Ed25519 public key of the operator: the trust anchor.
    pub client_identity_public_key: Vec<u8>,
    pub server_url: String,
}

impl Config {
    /// A resolved configuration's invariant: every key its fixed size,
    /// the public identity derived from the private seed, the
    /// operator's key a valid curve point.
    pub open spec fn wf(&self) -> bool {
        &&& self.identity_private_key@.len() == 32
        &&& self.identity_public_key@ == crypto::spec_ed25519_public_of(
            self.identity_private_key@,
        )
        &&& crypto::spec_ed25519_point_decodes(self.identity_public_key@)
        &&& self.private_prekey@.len() == 32
        &&& self.client_identity_public_key@.len() == 32
        &&& crypto::spec_ed25519_point_decodes(self.client_identity_public_key@)
    }

    /// Resolves configuration from the environment snapshot.
    ///
    /// The identity private key and the operator public key must be
    /// valid base64 of a valid key, or loading fails; the prekey must
    /// be valid base64, but any decoded length other than 32 silently
    /// yields the all-zero placeholder meaning "no prekey supplied".
    pub fn load(env: AgentEnv) -> (r: Result<Config, Error>)
        ensures
            ({
                let id_b64 = spec_env_or(env.identity_private_key, ""@);
                let pre_b64 = spec_env_or(env.prekey_private_key, ""@);
                let client_b64 = spec_env_or(env.client_identity_public_key, ""@);
                let id = crypto::spec_base64_decode(id_b64);
                let pre = crypto::spec_base64_decode(pre_b64);
                let client = crypto::spec_base64_decode(client_b64);
                &&& (r is Ok <==> {
                    &&& id matches Some(s) && s.len() == 32
                    &&& pre is Some
                    &&& client matches Some(c) && c.len() == 32
                        && crypto::spec_ed25519_point_decodes(c)
                })
                &&& (id is None ==> (r matches Err(e) && e matches Error::Internal(m)
                    && m@ == "AGENT_IDENTITY_PRIVATE_KEY decode error"@))
                &&& (id matches Some(s) && s.len() != 32 ==> (r matches Err(e)
                    && e matches Error::Internal(m)
                    && m@ == "AGENT_IDENTITY_PRIVATE_KEY parse error"@))
                &&& (id matches Some(s) && s.len() == 32 && pre is None ==> (r matches Err(e)
                    && e matches Error::Internal(m)
                    && m@ == "AGENT_PREKEY_PRIVATE_KEY decode error"@))
                &&& (id matches Some(s) && s.len() == 32 && pre is Some && client is None
                    ==> (r matches Err(e) && e matches Error::Internal(m)
                    && m@ == "CLIENT_IDENTITY_PUBLIC_KEY decode error"@))
                &&& ((id matches Some(s) && s.len() == 32) && pre is Some
                    && (client matches Some(c) && !(c.len() == 32
                    && crypto::spec_ed25519_point_decodes(c))) ==> (r matches Err(e)
                    && e matches Error::Internal(m)
                    && m@ == "CLIENT_IDENTITY_PUBLIC_KEY parse error"@))
                &&& (r matches Ok(c) ==> {
                    &&& c.wf()
                    &&& c.server_url@ == spec_env_or(env.server_url, spec_default_server_url())
                    &&& c.identity_private_key@ == id.unwrap()
                    &&& c.identity_public_key@ == crypto::spec_ed25519_public_of(id.unwrap())
                    &&& c.private_prekey@ == (if pre.unwrap().len() == 32 {
                        pre.unwrap()
                    } else {
                        spec_zero_prekey()
                    })
                    &&& c.client_identity_public_key@ == client.unwrap()
                })
            }),
    {
        proof {
            reveal_strlit("");
            assert(""@ =~= Seq::<char>::empty());
        }
        let server_url = match env.server_url {
            Some(s) => s,
            None => String::from_str("http://127.0.0.1:8080"),
        };

        let id_b64 = match env.identity_private_key {
            Some(s) => s,
            None => String::new(),
        };
        let identity_private_key = match crypto::base64_decode(id_b64.as_str()) {
            Some(b) => b,
            None => {
                return Err(Error::Internal(String::from_str(
                    "AGENT_IDENTITY_PRIVATE_KEY decode error",
                )));
            },
        };
        if identity_private_key.len() != 32 {
            return Err(Error::Internal(String::from_str(
                "AGENT_IDENTITY_PRIVATE_KEY parse error",
            )));
        }
        let identity_public_key = crypto::ed25519_public_of(identity_private_key.as_slice());

        let pre_b64 = match env.prekey_private_key {
            Some(s) => s,
            None => String::new(),
        };
        let prekey_bytes = match crypto::base64_decode(pre_b64.as_str()) {
            Some(b) => b,
            None => {
                return Err(Error::Internal(String::from_str(
                    "AGENT_PREKEY_PRIVATE_KEY decode error",
                )));
            },
        };
        let private_prekey = if prekey_bytes.len() == 32 {
            prekey_bytes
        } else {
            zero_prekey()
        };

        let client_b64 = match env.client_identity_public_key {
            Some(s) => s,
            None => String::new(),
        };
        let client_identity_public_key = match crypto::base64_decode(client_b64.as_str()) {
            Some(b) => b,
            None => {
                return Err(Error::Internal(String::from_str(
                    "CLIENT_IDENTITY_PUBLIC_KEY decode error",
                )));
            },
        };
        if client_identity_public_key.len() != 32
            || !crypto::ed25519_public_key_decodes(client_identity_public_key.as_slice()) {
            return Err(Error::Internal(String::from_str(
                "CLIENT_IDENTITY_PUBLIC_KEY parse error",
            )));
        }

        Ok(Config {
            identity_public_key,
            identity_private_key,
            private_prekey,
            client_identity_public_key,
            server_url,
        })
    }
}

/// Builds the all-zero "no prekey supplied" placeholder.
pub fn zero_prekey() -> (r: Vec<u8>)
    ensures
        r@ == spec_zero_prekey(),
{
    let mut v: Vec<u8> = Vec::new();
    let mut i: usize = 0;
    while i < 32
        invariant
            0 <= i <= 32,
            v@.len() == i,
            forall|j: int| 0 <= j < i ==> v@[j] == 0u8,
        decreases 32 - i,
    {
        v.push(0);
        i = i + 1;
    }
    proof {
        assert(v@ =~= spec_zero_prekey());
    }
    v
}

/// The server URL for call sites that need only it: the environment
/// value where set, the built-in default otherwise.
pub fn server_url(env_value: Option<String>) -> (r: String)
    ensures
        r@ == spec_env_or(env_value, spec_default_server_url()),
{
    match env_value {
        Some(s) => s,
        None => String::from_str("http://127.0.0.1:8080"),
    }
}

/// Relies on dirs::data_dir: the OS per-user data directory, if the
/// host exposes one; the value depends on the machine, so nothing is
/// promised of it.  A non-UTF-8 path is carried lossily.
#[verifier::external_body]
fn os_data_dir() -> (r: Option<String>) {
    dirs::data_dir().map(|d| d.to_string_lossy().into_owned())
}

/// The path logic of `get_agent_directory`, exact over any base: the
/// install subdirectory joined onto it.
pub fn join_agent_directory(base: &str) -> (r: String)
    ensures
        r@ == base@ + "/bhr_ch13"@,
{
    String::from_str(base).concat("/bhr_ch13")
}

/// The path logic of `get_agent_install_target`, exact over any base.
pub fn join_agent_install_target(base: &str) -> (r: String)
    ensures
        r@ == base@ + "/bhr_ch13/ch13_agent"@,
{
    let dir = join_agent_directory(base);
    let target = dir.concat("/ch13_agent");
    proof {
        reveal_strlit("/bhr_ch13");
        reveal_strlit("/ch13_agent");
        reveal_strlit("/bhr_ch13/ch13_agent");
        assert(target@ =~= base@ + "/bhr_ch13/ch13_agent"@);
    }
    target
}

/// The path logic of `agent_file_path`, exact over any base and
/// filename.
pub fn join_agent_file_path(base: &str, filename: &str) -> (r: String)
    ensures
        r@ == base@ + "/bhr_ch13/"@ + filename@,
{
    let dir = join_agent_directory(base);
    let with_sep = dir.concat("/");
    let path = with_sep.concat(filename);
    proof {
        reveal_strlit("/bhr_ch13");
        reveal_strlit("/");
        reveal_strlit("/bhr_ch13/");
        assert(path@ =~= base@ + "/bhr_ch13/"@ + filename@);
    }
    path
}

/// The agent's state directory: the OS per-user data directory joined
/// with the install subdirectory; fails when the host exposes none.
pub fn get_agent_directory() -> (r: Result<String, Error>)
    ensures
        r matches Ok(d) ==> exists|base: Seq<char>| d@ == base + "/bhr_ch13"@,
        r matches Err(e) ==> e matches Error::Internal(m)
            && m@ == "Error getting data directory."@,
{
    match os_data_dir() {
        Some(d) => Ok(join_agent_directory(d.as_str())),
        None => Err(Error::Internal(String::from_str("Error getting data directory."))),
    }
}

/// The full path the agent binary is installed at.
pub fn get_agent_install_target() -> (r: Result<String, Error>)
    ensures
        r matches Ok(d) ==> exists|base: Seq<char>| d@ == base + "/bhr_ch13/ch13_agent"@,
        r matches Err(e) ==> e matches Error::Internal(m)
            && m@ == "Error getting data directory."@,
{
    match os_data_dir() {
        Some(d) => Ok(join_agent_install_target(d.as_str())),
        None => Err(Error::Internal(String::from_str("Error getting data directory."))),
    }
}

/// The full path of a named file in the agent's state directory.
pub fn agent_file_path(filename: &str) -> (r: Result<String, Error>)
    ensures
        r matches Ok(d) ==> exists|base: Seq<char>| d@ == base + "/bhr_ch13/"@ + filename@,
        r matches Err(e) ==> e matches Error::Internal(m)
            && m@ == "Error getting data directory."@,
{
    match os_data_dir() {
        Some(d) => Ok(join_agent_file_path(d.as_str(), filename)),
        None => Err(Error::Internal(String::from_str("Error getting data directory."))),
    }
}

} // verus!
