//! The shared wire protocol: the one canonical definition of every
//! structure that crosses the agent-server and client-server boundary.
//!
//! Every API reply is wrapped in a [`Response`] envelope
//! `{data, error}`; its unwrapping contract is: an `error` field, if
//! present, is authoritative regardless of `data`, and a reply with
//! neither field is a missing-data failure, never a crash.

use vstd::prelude::*;
use crate::error::Error;
use crate::uid::Uuid;

verus! {

/// The `error` half of an envelope: a server-reported failure message.
#[derive(Debug, Clone)]
pub struct ErrorBody {
    pub message: String,
}

/// The uniform `{data, error}` wrapper around every API reply.
#[derive(Debug, Clone)]
pub struct Response<T> {
    pub data: Option<T>,
    pub error: Option<ErrorBody>,
}

/// Body of `POST /api/agents`: the material a new agent registers under.
#[derive(Debug, Clone)]
pub struct RegisterAgent {
    /// 32-byte Ed25519 identity public key.
    pub identity_public_key: Vec<u8>,
    /// 32-byte X25519 public prekey.
    pub public_prekey: Vec<u8>,
    /// 64-byte Ed25519 signature over the public prekey by the identity.
    pub public_prekey_signature: Vec<u8>,
}

/// Reply payload of `POST /api/agents`: the server-assigned agent UUID.
#[derive(Debug, Clone)]
pub struct AgentRegistered {
    pub id: Uuid,
}

/// A server-visible agent record.
#[derive(Debug, Clone)]
pub struct Agent {
    pub id: Uuid,
    /// 32-byte Ed25519 identity public key the agent registered under.
    pub identity_public_key: Vec<u8>,
}

/// Reply payload of `GET /api/agents`.
#[derive(Debug, Clone)]
pub struct AgentsList {
    pub agents: Vec<Agent>,
}

/// Body of `POST /api/jobs`: an operator-submitted command descriptor,
/// encrypted for the addressed agent.
#[derive(Debug, Clone)]
pub struct CreateJob {
    pub agent_id: Uuid,
    /// Sealed job payload (ciphertext then tag).
    pub encrypted_job: Vec<u8>,
    /// 32-byte X25519 ephemeral public key the payload key was agreed from.
    pub ephemeral_public_key: Vec<u8>,
    /// 12-byte cipher nonce.
    pub nonce: Vec<u8>,
}

/// Reply payload of `POST /api/jobs`, and the record an agent polls:
/// the descriptor plus its server-assigned identifier.
#[derive(Debug, Clone)]
pub struct Job {
    pub id: Uuid,
    pub agent_id: Uuid,
    pub encrypted_job: Vec<u8>,
    pub ephemeral_public_key: Vec<u8>,
    pub nonce: Vec<u8>,
}

impl<T> Response<T> {
    /// Unwraps the envelope per its contract: a present `error` is
    /// authoritative and becomes an API failure carrying its message
    /// verbatim; otherwise the payload is owed, and a reply with
    /// neither field fails with `missing_data_msg` instead of crashing.
    ///
    /// The envelope's `error` field is the server speaking, so it is
    /// deliberately classed as [`Error::Api`] - rendering as
    /// `"API error: <message>"` - and never folded into the internal
    /// kind, which is reserved for this side's own faults.
    pub fn unwrap_data(self, missing_data_msg: &str) -> (r: Result<T, Error>)
        ensures
            self.error is Some ==> (r matches Err(e)
                && e == Error::Api(self.error.unwrap().message)),
            self.error is None && self.data is Some ==> (r matches Ok(d)
                && d == self.data.unwrap()),
            self.error is None && self.data is None ==> (r matches Err(e)
                && e matches Error::Internal(m) && m@ == missing_data_msg@),
    {
        match self.error {
            Some(err) => Err(Error::Api(err.message)),
            None => match self.data {
                Some(d) => Ok(d),
                None => Err(Error::Internal(String::from_str(missing_data_msg))),
            },
        }
    }
}

} // verus!
