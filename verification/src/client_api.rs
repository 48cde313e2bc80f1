//! The operator client's typed API layer: the routes it posts to,
//! the envelope unwrapping of each operation's reply, and operator
//! identity generation.
//!
//! The unverified shell performs the HTTP transport and hands the
//! decoded [`Response`] envelope in; each operation's outcome is
//! decided here under the envelope contract.

use vstd::prelude::*;
use crate::crypto;
use crate::error::Error;
use crate::protocol::{Agent, AgentsList, Job, Response};
use crate::uid::Uuid;

verus! {

/// The typed API bindings: holds the base server URL.
pub struct Client {
    pub server_url: String,
}

impl Client {
    /// Binds the API layer to a base server URL.
    pub fn new(server_url: String) -> (r: Client)
        ensures
            r.server_url@ == server_url@,
    {
        Client { server_url }
    }

    /// The URL job creation posts to.
    pub fn jobs_url(&self) -> (r: String)
        ensures
            r@ == self.server_url@ + "/api/jobs"@,
    {
        String::from_str(self.server_url.as_str()).concat("/api/jobs")
    }

    /// The URL the agent listing is fetched from.
    pub fn agents_url(&self) -> (r: String)
        ensures
            r@ == self.server_url@ + "/api/agents"@,
    {
        String::from_str(self.server_url.as_str()).concat("/api/agents")
    }

    /// The outcome of job creation: the created job's UUID when the
    /// envelope carries `data` and no `error`; the server's message
    /// verbatim when `error` is present, whatever `data` holds; a
    /// distinct missing-data failure when the envelope is empty.
    pub fn create_job(&self, response: Response<Job>) -> (r: Result<Uuid, Error>)
        ensures
            response.error is Some ==> (r matches Err(e)
                && e == Error::Api(response.error.unwrap().message)),
            response.error is None && response.data is Some ==> (r matches Ok(id)
                && id == response.data.unwrap().id),
            response.error is None && response.data is None ==> (r matches Err(e)
                && e matches Error::Internal(m) && m@ == "Server returned no job"@),
    {
        match response.unwrap_data("Server returned no job") {
            Ok(job) => Ok(job.id),
            Err(e) => Err(e),
        }
    }

    /// The outcome of the agent listing: the full list in
    /// server-provided order under the same envelope contract.
    pub fn list_agents(&self, response: Response<AgentsList>) -> (r: Result<Vec<Agent>, Error>)
        ensures
            response.error is Some ==> (r matches Err(e)
                && e == Error::Api(response.error.unwrap().message)),
            response.error is None && response.data is Some ==> (r matches Ok(agents)
                && agents == response.data.unwrap().agents),
            response.error is None && response.data is None ==> (r matches Err(e)
                && e matches Error::Internal(m) && m@ == "Server returned no agents"@),
    {
        match response.unwrap_data("Server returned no agents") {
            Ok(list) => Ok(list.agents),
            Err(e) => Err(e),
        }
    }
}

/// A freshly generated operator identity, both halves base64-encoded
/// for the operator to place into configuration.
pub struct GeneratedIdentity {
    pub private_key_b64: String,
    pub public_key_b64: String,
}

/// Generates a fresh Ed25519 identity keypair from the OS random
/// source: some 32-byte seed, encoded beside the public key derived
/// from that same seed.  Every invocation draws an unrelated seed.
pub fn generate_identity() -> (r: GeneratedIdentity)
    ensures
        exists|seed: Seq<u8>|
            {
                &&& seed.len() == 32
                &&& r.private_key_b64@ == #[trigger] crypto::spec_base64_encode(seed)
                &&& r.public_key_b64@ == crypto::spec_base64_encode(
                    crypto::spec_ed25519_public_of(seed),
                )
            },
{
    let seed = crypto::random_bytes_32();
    let public_key = crypto::ed25519_public_of(seed.as_slice());
    let private_key_b64 = crypto::base64_encode(seed.as_slice());
    let public_key_b64 = crypto::base64_encode(public_key.as_slice());
    let r = GeneratedIdentity { private_key_b64, public_key_b64 };
    proof {
        assert(seed@.len() == 32 && r.private_key_b64@ == crypto::spec_base64_encode(seed@)
            && r.public_key_b64@ == crypto::spec_base64_encode(
            crypto::spec_ed25519_public_of(seed@),
        ));
    }
    r
}

} // verus!
