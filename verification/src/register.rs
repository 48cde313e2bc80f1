//! Registration and key persistence: a one-shot state machine,
//! Unregistered to Registered, whose transition is persisted to disk.
//!
//! The unverified shell reads the two state files and hands their
//! contents in as an [`AgentDiskState`]; the verified logic decides
//! everything from there: which private prekey to adopt, whether to
//! persist it, and whether the process is already registered (so that
//! no registration request may be sent) or must submit one.

use vstd::prelude::*;
use crate::agent_config::{Config, spec_zero_prekey};
use crate::crypto;
use crate::error::Error;
use crate::protocol::{AgentRegistered, RegisterAgent, Response};
use crate::uid::{Uuid, spec_trim, uuid_value_of, valid_uuid_text};

verus! {

/// Name of the file the agent's UUID is persisted under.
pub fn agent_id_file() -> (r: &'static str)
    ensures
        r@ == "agent_id"@,
{
    "agent_id"
}

/// Name of the file the private prekey is persisted under.
pub fn agent_prekey_file() -> (r: &'static str)
    ensures
        r@ == "agent_prekey"@,
{
    "agent_prekey"
}

/// Contents of the agent's two state files, as found on disk at
/// process start; `None` stands for an absent file.
pub struct AgentDiskState {
    /// Raw contents of the prekey file (32 raw bytes when intact).
    pub prekey_file: Option<Vec<u8>>,
    /// Raw contents of the UUID file (UTF-8 hyphenated text).
    pub id_file: Option<Vec<u8>>,
}

/// What the process start decided: either the host is already
/// registered, or a registration request must be submitted.
pub enum RegistrationStep {
    /// A UUID is on disk: use it, send nothing.
    Registered {
        id: Uuid,
        /// A prekey value to best-effort persist, where one was
        /// adopted from configuration or generated.
        persist_prekey: Option<Vec<u8>>,
    },
    /// First run: submit `request` and persist what comes back.
    MustRegister {
        request: RegisterAgent,
        /// The resolved private prekey, for the run loop.
        private_prekey: Vec<u8>,
        /// A prekey value to best-effort persist, as above.
        persist_prekey: Option<Vec<u8>>,
    },
}

/// Whether the prekey comes from disk: a file exists and
/// configuration supplied none (the all-zero placeholder).
pub open spec fn prekey_from_disk(disk_prekey: Option<Vec<u8>>, configured: Seq<u8>) -> bool {
    disk_prekey is Some && configured == spec_zero_prekey()
}

/// Whether prekey resolution succeeds: a disk-sourced prekey must
/// hold exactly 32 bytes (never truncated or padded).
pub open spec fn prekey_resolution_ok(disk_prekey: Option<Vec<u8>>, configured: Seq<u8>) -> bool {
    prekey_from_disk(disk_prekey, configured) ==> disk_prekey.unwrap()@.len() == 32
}

/// Whether the resolved prekey is (re-)persisted to disk: exactly
/// when it did not come from disk.
pub open spec fn prekey_persisted(disk_prekey: Option<Vec<u8>>, configured: Seq<u8>) -> bool {
    !prekey_from_disk(disk_prekey, configured)
}

/// The resolved private prekey, given also the value `generated`
/// drawn from the OS random source in case neither disk nor
/// configuration supplies one.
pub open spec fn spec_resolved_prekey(
    disk_prekey: Option<Vec<u8>>,
    configured: Seq<u8>,
    generated: Seq<u8>,
) -> Seq<u8> {
    if prekey_from_disk(disk_prekey, configured) {
        disk_prekey.unwrap()@
    } else if configured != spec_zero_prekey() {
        configured
    } else {
        generated
    }
}

/// Loads the agent's UUID from disk, or decides that registration
/// with the server is required; stabilizes the X25519 prekey either
/// way, strictly before the identity check.
///
/// Prekey precedence: a disk file is authoritative when
/// configuration supplies none; a configured non-zero prekey is
/// adopted and handed back for persisting - it wins even over an
/// existing disk file, which it then overwrites, so the two sources
/// agree again from the next start on; with neither, a fresh 32-byte
/// value is drawn and handed back for persisting.
pub fn get_or_register_agent_id(conf: &Config, disk: AgentDiskState) -> (r: Result<
    RegistrationStep,
    Error,
>)
    requires
        conf.wf(),
    ensures
        r is Ok <==> ({
            &&& prekey_resolution_ok(disk.prekey_file, conf.private_prekey@)
            &&& (disk.id_file matches Some(t) ==> valid_uuid_text(spec_trim(t@)))
        }),
        !prekey_resolution_ok(disk.prekey_file, conf.private_prekey@) ==> (r matches Err(e)
            && e matches Error::Internal(m) && m@ == "Stored prekey has wrong length"@),
        prekey_resolution_ok(disk.prekey_file, conf.private_prekey@) && (disk.id_file
            matches Some(t) && !valid_uuid_text(spec_trim(t@))) ==> (r matches Err(e)
            && e matches Error::Internal(m) && m@ == "Stored agent UUID is invalid"@),
        r matches Ok(step) ==> match step {
            RegistrationStep::Registered { id, persist_prekey } => {
                &&& disk.id_file matches Some(t) && id@ == uuid_value_of(spec_trim(t@))
                &&& persist_ok(persist_prekey, disk.prekey_file, conf.private_prekey@)
            },
            RegistrationStep::MustRegister { request, private_prekey, persist_prekey } => {
                &&& disk.id_file is None
                &&& resolved_ok(private_prekey@, disk.prekey_file, conf.private_prekey@)
                &&& persist_ok(persist_prekey, disk.prekey_file, conf.private_prekey@)
                &&& (persist_prekey matches Some(p) ==> p@ == private_prekey@)
                &&& request.identity_public_key@ == conf.identity_public_key@
                &&& request.public_prekey@ == crypto::spec_x25519(
                    private_prekey@,
                    crypto::spec_x25519_basepoint(),
                )
                &&& request.public_prekey_signature@ == crypto::spec_ed25519_sign(
                    conf.identity_private_key@,
                    request.public_prekey@,
                )
                &&& crypto::spec_ed25519_point_decodes(request.identity_public_key@)
                &&& crypto::spec_ed25519_verifies(
                    request.identity_public_key@,
                    request.public_prekey@,
                    request.public_prekey_signature@,
                )
            },
        },
{
    // Resolve the stable prekey first, so the very first run
    // stabilizes it even though no UUID exists yet.
    let configured_zero = is_zero_32(conf.private_prekey.as_slice());
    let (private_prekey, persist_prekey): (Vec<u8>, Option<Vec<u8>>) = match disk.prekey_file {
        Some(d) if configured_zero => {
            if d.len() == 32 {
                (d, None)
            } else {
                return Err(Error::Internal(String::from_str("Stored prekey has wrong length")));
            }
        },
        _ => {
            if !configured_zero {
                let k = copy_bytes(conf.private_prekey.as_slice());
                let p = copy_bytes(conf.private_prekey.as_slice());
                (k, Some(p))
            } else {
                let k = crypto::random_bytes_32();
                let p = copy_bytes(k.as_slice());
                (k, Some(p))
            }
        },
    };

    // A stored UUID means the host is already registered: return it
    // and send nothing.
    if let Some(text) = disk.id_file {
        return match Uuid::parse(text.as_slice()) {
            Some(id) => Ok(RegistrationStep::Registered { id, persist_prekey }),
            None => Err(Error::Internal(String::from_str("Stored agent UUID is invalid"))),
        };
    }

    // First run: bind the public prekey to the identity and build the
    // registration request for the shell to submit.
    let basepoint = crypto::x25519_basepoint();
    let public_prekey = crypto::x25519_mul(private_prekey.as_slice(), basepoint.as_slice());
    let signature = crypto::ed25519_sign(
        conf.identity_private_key.as_slice(),
        public_prekey.as_slice(),
    );
    let request = RegisterAgent {
        identity_public_key: copy_bytes(conf.identity_public_key.as_slice()),
        public_prekey,
        public_prekey_signature: signature,
    };
    Ok(RegistrationStep::MustRegister { request, private_prekey, persist_prekey })
}

/// The resolved prekey is the disk value, the configured value, or a
/// fresh 32-byte draw, per precedence.
pub open spec fn resolved_ok(
    key: Seq<u8>,
    disk_prekey: Option<Vec<u8>>,
    configured: Seq<u8>,
) -> bool {
    &&& key.len() == 32
    &&& (prekey_from_disk(disk_prekey, configured) ==> key == disk_prekey.unwrap()@)
    &&& (!prekey_from_disk(disk_prekey, configured) && configured != spec_zero_prekey()
        ==> key == configured)
}

/// What is handed back for persisting: nothing when the disk value
/// was adopted, otherwise the adopted (configured or generated) key.
pub open spec fn persist_ok(
    persist: Option<Vec<u8>>,
    disk_prekey: Option<Vec<u8>>,
    configured: Seq<u8>,
) -> bool {
    &&& (persist is Some <==> prekey_persisted(disk_prekey, configured))
    &&& (persist matches Some(p) ==> resolved_ok(p@, disk_prekey, configured))
}

/// Completes first-run registration from the server's reply: a
/// present `error` is authoritative, a missing payload is the
/// distinct "no agent ID" failure, and otherwise the assigned UUID
/// comes back.
pub fn finish_registration(response: Response<AgentRegistered>) -> (r: Result<Uuid, Error>)
    ensures
        response.error is Some ==> (r matches Err(e)
            && e == Error::Api(response.error.unwrap().message)),
        response.error is None && response.data is Some ==> (r matches Ok(id)
            && id == response.data.unwrap().id),
        response.error is None && response.data is None ==> (r matches Err(e)
            && e matches Error::Internal(m) && m@ == "Server returned no agent ID"@),
    {
    match response.unwrap_data("Server returned no agent ID") {
        Ok(registered) => Ok(registered.id),
        Err(e) => Err(e),
    }
}

/// The already-persisted private prekey, for the run loop's
/// decryption needs; fails if none has ever been persisted, and
/// never truncates or pads a corrupt file.
pub fn load_stable_prekey(disk_prekey: Option<Vec<u8>>) -> (r: Result<Vec<u8>, Error>)
    ensures
        disk_prekey is None ==> (r matches Err(e) && e matches Error::Internal(m)
            && m@ == "Prekey not found on disk - run registration first"@),
        disk_prekey matches Some(d) && d@.len() != 32 ==> (r matches Err(e)
            && e matches Error::Internal(m) && m@ == "Stored prekey has wrong length"@),
        disk_prekey matches Some(d) ==> (d@.len() == 32 ==> (r matches Ok(k) && k@ == d@)),
{
    match disk_prekey {
        None => Err(Error::Internal(String::from_str(
            "Prekey not found on disk - run registration first",
        ))),
        Some(d) => {
            if d.len() != 32 {
                Err(Error::Internal(String::from_str("Stored prekey has wrong length")))
            } else {
                Ok(d)
            }
        },
    }
}

/// Checks a signed-prekey binding as the server does on
/// registration: whether `signature` is the identity's Ed25519
/// signature over the transmitted public prekey.  False whenever the
/// key is not 32 valid public-key bytes, the signature is not 64
/// bytes, or verification fails.
pub fn verify_signed_prekey(
    identity_public_key: &[u8],
    public_prekey: &[u8],
    signature: &[u8],
) -> (r: bool)
    ensures
        r == ({
            &&& identity_public_key@.len() == 32
            &&& crypto::spec_ed25519_point_decodes(identity_public_key@)
            &&& signature@.len() == 64
            &&& crypto::spec_ed25519_verifies(identity_public_key@, public_prekey@, signature@)
        }),
{
    if identity_public_key.len() != 32 || signature.len() != 64 {
        return false;
    }
    if !crypto::ed25519_public_key_decodes(identity_public_key) {
        return false;
    }
    crypto::ed25519_verify(identity_public_key, public_prekey, signature)
}

/// The URL first-run registration posts to.
pub fn register_url(server_url: &str) -> (r: String)
    ensures
        r@ == server_url@ + "/api/agents"@,
{
    String::from_str(server_url).concat("/api/agents")
}

/// Prekey stabilization is idempotent: a first run with no disk file
/// and no configured prekey adopts the value it drew and persists
/// it; a second run that finds that file (still with no configured
/// prekey) resolves the identical key, whatever would be drawn then,
/// and rewrites nothing.
pub proof fn lemma_prekey_stabilization_idempotent(generated: Seq<u8>, stored: Vec<u8>)
    requires
        stored@ == generated,
    ensures
        spec_resolved_prekey(None, spec_zero_prekey(), generated) == generated,
        prekey_persisted(None, spec_zero_prekey()),
        prekey_resolution_ok(Some(stored), spec_zero_prekey()) <==> generated.len() == 32,
        forall|later: Seq<u8>|
            spec_resolved_prekey(Some(stored), spec_zero_prekey(), later) == generated,
        !prekey_persisted(Some(stored), spec_zero_prekey()),
{
}

/// Prekey precedence: with no disk file and a non-zero configured
/// prekey, the configured value is adopted and persisted; once a
/// file holding it exists and configuration no longer supplies one,
/// the file is authoritative and nothing is rewritten.
pub proof fn lemma_prekey_precedence(configured: Seq<u8>, stored: Vec<u8>)
    requires
        configured != spec_zero_prekey(),
        stored@ == configured,
    ensures
        forall|g: Seq<u8>| spec_resolved_prekey(None, configured, g) == configured,
        prekey_persisted(None, configured),
        forall|g: Seq<u8>| spec_resolved_prekey(Some(stored), spec_zero_prekey(), g) == configured,
        !prekey_persisted(Some(stored), spec_zero_prekey()),
{
}

/// Copies a byte slice into an owned vector.
fn copy_bytes(v: &[u8]) -> (r: Vec<u8>)
    ensures
        r@ == v@,
{
    let n = v.len();
    let mut out: Vec<u8> = Vec::new();
    let mut i: usize = 0;
    while i < n
        invariant
            n == v@.len(),
            0 <= i <= n,
            out@ == v@.subrange(0, i as int),
        decreases n - i,
    {
        let b = v[i];
        out.push(b);
        proof {
            assert(out@ =~= v@.subrange(0, i + 1));
        }
        i = i + 1;
    }
    proof {
        assert(v@.subrange(0, n as int) =~= v@);
    }
    out
}

/// Whether 32 bytes are all zero (the "no prekey supplied"
/// placeholder).
fn is_zero_32(v: &[u8]) -> (r: bool)
    requires
        v@.len() == 32,
    ensures
        r == (v@ == spec_zero_prekey()),
{
    let mut i: usize = 0;
    while i < 32
        invariant
            v@.len() == 32,
            0 <= i <= 32,
            forall|j: int| 0 <= j < i ==> v@[j] == 0u8,
        decreases 32 - i,
    {
        if v[i] != 0 {
            proof {
                assert(v@[i as int] != spec_zero_prekey()[i as int]);
            }
            return false;
        }
        i = i + 1;
    }
    proof {
        assert(v@ =~= spec_zero_prekey());
    }
    true
}

} // verus!
