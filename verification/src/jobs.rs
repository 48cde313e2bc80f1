//! Job-payload protection for the run loop and the client: the
//! symmetric key is agreed by X25519 between a private key and the
//! counterpart's public value, and payloads are sealed with the
//! authenticated job cipher.
//!
//! A per-job decryption failure is an outcome to report, never a
//! reason to stop polling: [`plan_job`] is total.

use vstd::prelude::*;
use crate::crypto;
use crate::error::Error;
use crate::protocol::Job;
use crate::uid::Uuid;

verus! {

/// The symmetric job key: the X25519 agreement of a private scalar
/// with the counterpart's public value.
pub open spec fn spec_job_key(private_key: Seq<u8>, peer_public: Seq<u8>) -> Seq<u8> {
    crypto::spec_x25519(private_key, peer_public)
}

/// Whether a polled job's cryptographic fields have their wire sizes.
pub open spec fn spec_job_sizes_ok(job: Job) -> bool {
    job.ephemeral_public_key@.len() == 32 && job.nonce@.len() == 12
}

/// Opens a polled job's sealed payload with the key agreed between
/// the agent's persisted private prekey and the job's ephemeral
/// public key; authentication failure is the cipher error.
pub fn decrypt_job(private_prekey: &[u8], job: &Job) -> (r: Result<Vec<u8>, Error>)
    requires
        private_prekey@.len() == 32,
    ensures
        !spec_job_sizes_ok(*job) ==> (r matches Err(e) && e matches Error::Internal(m)
            && m@ == "Invalid job payload"@),
        spec_job_sizes_ok(*job) ==> ({
            let opened = crypto::spec_aead_open(
                spec_job_key(private_prekey@, job.ephemeral_public_key@),
                job.nonce@,
                job.encrypted_job@,
            );
            &&& (r is Ok <==> opened is Some)
            &&& (r matches Ok(p) ==> p@ == opened.unwrap())
            &&& (r matches Err(e) ==> e matches Error::Internal(m) && m@ == "Cipher error"@)
        }),
{
    if job.ephemeral_public_key.len() != 32 || job.nonce.len() != 12 {
        return Err(Error::Internal(String::from_str("Invalid job payload")));
    }
    let key = crypto::x25519_mul(private_prekey, job.ephemeral_public_key.as_slice());
    match crypto::aead_open(key.as_slice(), job.nonce.as_slice(), job.encrypted_job.as_slice()) {
        Some(p) => Ok(p),
        None => Err(Error::Internal(String::from_str("Cipher error"))),
    }
}

/// Seals a payload for a counterpart under the agreed job key: used
/// by the client to build a job and by the agent to submit a result.
/// Succeeds on every payload short of the cipher's block-count limit
/// (which no job a machine holds approaches).
pub fn encrypt_payload(private_key: &[u8], peer_public: &[u8], nonce: &[u8], plaintext: &[u8]) -> (r:
    Result<Vec<u8>, Error>)
    requires
        private_key@.len() == 32,
        peer_public@.len() == 32,
        nonce@.len() == 12,
    ensures
        plaintext@.len() < 0x3FFFFFFFC0 ==> r is Ok,
        r matches Ok(ct) ==> ct@ == crypto::spec_aead_seal(
            spec_job_key(private_key@, peer_public@),
            nonce@,
            plaintext@,
        ) && ct@.len() == plaintext@.len() + 16,
        r matches Err(e) ==> (e matches Error::Internal(m) && m@ == "Cipher error"@),
{
    let key = crypto::x25519_mul(private_key, peer_public);
    match crypto::aead_seal(key.as_slice(), nonce, plaintext) {
        Some(ct) => Ok(ct),
        None => Err(Error::Internal(String::from_str("Cipher error"))),
    }
}

/// The URL one agent's pending job is polled from.
pub fn agent_job_url(server_url: &str, agent_id_text: &str) -> (r: String)
    ensures
        r@ == server_url@ + "/api/agents/"@ + agent_id_text@ + "/job"@,
{
    String::from_str(server_url).concat("/api/agents/").concat(agent_id_text).concat("/job")
}

/// The URL a job's encrypted result is submitted to.
pub fn job_result_url(server_url: &str) -> (r: String)
    ensures
        r@ == server_url@ + "/api/jobs/result"@,
{
    String::from_str(server_url).concat("/api/jobs/result")
}

/// What the run loop does with one polled job.
pub enum JobAction {
    /// The payload authenticated: execute the decrypted command and
    /// report its output.
    Execute { job_id: Uuid, command: Vec<u8> },
    /// The payload did not authenticate (or was malformed): report
    /// the job as failed and keep polling.
    ReportFailure { job_id: Uuid },
}

/// Decides one polled job: decrypt and execute, or report failure.
/// Total - no job, however malformed, terminates the loop.
pub fn plan_job(private_prekey: &[u8], job: Job) -> (r: JobAction)
    requires
        private_prekey@.len() == 32,
    ensures
        ({
            let opened = crypto::spec_aead_open(
                spec_job_key(private_prekey@, job.ephemeral_public_key@),
                job.nonce@,
                job.encrypted_job@,
            );
            &&& (spec_job_sizes_ok(job) && opened is Some ==> (r matches JobAction::Execute {
                job_id,
                command,
            } && job_id@ == job.id@ && command@ == opened.unwrap()))
            &&& (!(spec_job_sizes_ok(job) && opened is Some) ==> (r
                matches JobAction::ReportFailure { job_id } && job_id@ == job.id@))
        }),
{
    let outcome = decrypt_job(private_prekey, &job);
    match outcome {
        Ok(command) => JobAction::Execute { job_id: job.id, command },
        Err(_) => JobAction::ReportFailure { job_id: job.id },
    }
}

} // verus!
