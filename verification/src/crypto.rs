//! Cryptographic primitive sizes and the boundary to the outside
//! cryptography crates.
//!
//! Every call into an outside crate stands behind one trusted wrapper
//! here.  A result that no short statement can pin down (a curve point, a
//! signature, a ciphertext) is given an uninterpreted name instead; the
//! verified logic speaks of those names exactly.

use vstd::prelude::*;

verus! {

/// X25519 private scalar size in bytes.
pub const X25519_PRIVATE_KEY_SIZE: usize = 32;
/// X25519 public value size in bytes.
pub const X25519_PUBLIC_KEY_SIZE: usize = 32;
/// Ed25519 private seed size in bytes.
pub const ED25519_PRIVATE_KEY_SIZE: usize = 32;
/// Ed25519 public key size in bytes.
pub const ED25519_PUBLIC_KEY_SIZE: usize = 32;
/// Ed25519 signature size in bytes.
pub const ED25519_SIGNATURE_SIZE: usize = 64;
/// Symmetric job-payload cipher key size in bytes (256-bit key).
pub const JOB_CIPHER_KEY_SIZE: usize = 32;
/// Symmetric job-payload cipher nonce size in bytes (96-bit nonce).
pub const JOB_CIPHER_NONCE_SIZE: usize = 12;
/// Symmetric job-payload cipher authentication tag size in bytes.
pub const JOB_CIPHER_TAG_SIZE: usize = 16;

/// What base64 decoding of `s` yields: the decoded bytes, or `None` when
/// `s` is not valid base64.
pub uninterp spec fn spec_base64_decode(s: Seq<char>) -> Option<Seq<u8>>;

/// The base64 text encoding the bytes `b`.
pub uninterp spec fn spec_base64_encode(b: Seq<u8>) -> Seq<char>;

/// The Ed25519 public key derived from a 32-byte private seed.
pub uninterp spec fn spec_ed25519_public_of(seed: Seq<u8>) -> Seq<u8>;

/// Whether 32 bytes decode to a valid Ed25519 public key point.
pub uninterp spec fn spec_ed25519_point_decodes(b: Seq<u8>) -> bool;

/// The Ed25519 signature over `msg` by the identity with private seed
/// `seed` (Ed25519 signing is deterministic).
pub uninterp spec fn spec_ed25519_sign(seed: Seq<u8>, msg: Seq<u8>) -> Seq<u8>;

/// Whether `sig` is a valid Ed25519 signature over `msg` by the identity
/// with public key `pk`.
pub uninterp spec fn spec_ed25519_verifies(pk: Seq<u8>, msg: Seq<u8>, sig: Seq<u8>) -> bool;

/// The X25519 scalar multiplication of scalar `k` with point `u`.
pub uninterp spec fn spec_x25519(k: Seq<u8>, u: Seq<u8>) -> Seq<u8>;

/// The ChaCha20-Poly1305 ciphertext (payload then tag) sealing `msg`
/// under `key` and `nonce`.
pub uninterp spec fn spec_aead_seal(key: Seq<u8>, nonce: Seq<u8>, msg: Seq<u8>) -> Seq<u8>;

/// What opening `ct` under `key` and `nonce` yields: the plaintext, or
/// `None` when authentication fails.
pub uninterp spec fn spec_aead_open(key: Seq<u8>, nonce: Seq<u8>, ct: Seq<u8>) -> Option<Seq<u8>>;

/// The X25519 base point, for deriving a public key from a private
/// scalar: the byte 9 followed by 31 zero bytes.
pub open spec fn spec_x25519_basepoint() -> Seq<u8> {
    Seq::new(32, |i: int| if i == 0 { 9u8 } else { 0u8 })
}

/// Builds the X25519 base point value.
pub fn x25519_basepoint() -> (r: Vec<u8>)
    ensures
        r@ == spec_x25519_basepoint(),
{
    let mut v: Vec<u8> = Vec::new();
    v.push(9);
    let mut i: usize = 1;
    while i < 32
        invariant
            1 <= i <= 32,
            v@.len() == i,
            v@[0] == 9u8,
            forall|j: int| 1 <= j < i ==> v@[j] == 0u8,
        decreases 32 - i,
    {
        v.push(0);
        i = i + 1;
    }
    proof {
        assert(v@ =~= spec_x25519_basepoint());
    }
    v
}

/// Relies on base64::decode (standard alphabet, padding required).
#[verifier::external_body]
pub(crate) fn base64_decode(s: &str) -> (r: Option<Vec<u8>>)
    ensures
        r is Some <==> spec_base64_decode(s@) is Some,
        r is Some ==> r.unwrap()@ == spec_base64_decode(s@).unwrap(),
{
    base64::decode(s).ok()
}

/// Relies on base64::encode (standard alphabet, padded).
#[verifier::external_body]
pub(crate) fn base64_encode(b: &[u8]) -> (r: String)
    ensures
        r@ == spec_base64_encode(b@),
{
    base64::encode(b)
}

/// Relies on ed25519_dalek::SigningKey::from_bytes and verifying_key:
/// the public key is a function of the 32-byte seed alone, and is 32
/// bytes long.  A derived key is the compression of a real curve
/// point, so VerifyingKey::from_bytes decompresses it again: the
/// derived bytes always decode.
#[verifier::external_body]
pub(crate) fn ed25519_public_of(seed: &[u8]) -> (r: Vec<u8>)
    requires
        seed@.len() == 32,
    ensures
        r@ == spec_ed25519_public_of(seed@),
        r@.len() == 32,
        spec_ed25519_point_decodes(r@),
{
    let seed32: [u8; 32] = seed.try_into().unwrap();
    let signing = ed25519_dalek::SigningKey::from_bytes(&seed32);
    signing.verifying_key().to_bytes().to_vec()
}

/// Relies on ed25519_dalek::VerifyingKey::from_bytes: whether 32 bytes
/// decompress to a curve point is a function of the bytes alone.
#[verifier::external_body]
pub(crate) fn ed25519_public_key_decodes(b: &[u8]) -> (r: bool)
    requires
        b@.len() == 32,
    ensures
        r == spec_ed25519_point_decodes(b@),
{
    let b32: [u8; 32] = b.try_into().unwrap();
    ed25519_dalek::VerifyingKey::from_bytes(&b32).is_ok()
}

/// Relies on ed25519_dalek::SigningKey and the Signer impl: Ed25519
/// signing is deterministic in the seed and message, and yields 64
/// bytes.  The last clause is the signer's documented correctness:
/// what it signs, the Verifier impl accepts under the public key
/// derived from the same seed.
#[verifier::external_body]
pub(crate) fn ed25519_sign(seed: &[u8], msg: &[u8]) -> (r: Vec<u8>)
    requires
        seed@.len() == 32,
    ensures
        r@ == spec_ed25519_sign(seed@, msg@),
        r@.len() == 64,
        spec_ed25519_verifies(spec_ed25519_public_of(seed@), msg@, r@),
{
    let seed32: [u8; 32] = seed.try_into().unwrap();
    let signing = ed25519_dalek::SigningKey::from_bytes(&seed32);
    let signature = ed25519_dalek::Signer::sign(&signing, msg);
    signature.to_bytes().to_vec()
}

/// Relies on ed25519_dalek::VerifyingKey and the Verifier impl: whether
/// a signature verifies is a function of key, message and signature
/// alone.
#[verifier::external_body]
pub(crate) fn ed25519_verify(pk: &[u8], msg: &[u8], sig: &[u8]) -> (r: bool)
    requires
        pk@.len() == 32,
        spec_ed25519_point_decodes(pk@),
        sig@.len() == 64,
    ensures
        r == spec_ed25519_verifies(pk@, msg@, sig@),
{
    let pk32: [u8; 32] = pk.try_into().unwrap();
    let key = ed25519_dalek::VerifyingKey::from_bytes(&pk32).unwrap();
    let sig64: [u8; 64] = sig.try_into().unwrap();
    let signature = ed25519_dalek::Signature::from_bytes(&sig64);
    ed25519_dalek::Verifier::verify(&key, msg, &signature).is_ok()
}

/// Relies on x25519_dalek::x25519: scalar multiplication is a function
/// of the scalar and point alone, and yields 32 bytes.
#[verifier::external_body]
pub(crate) fn x25519_mul(k: &[u8], u: &[u8]) -> (r: Vec<u8>)
    requires
        k@.len() == 32,
        u@.len() == 32,
    ensures
        r@ == spec_x25519(k@, u@),
        r@.len() == 32,
{
    let k32: [u8; 32] = k.try_into().unwrap();
    let u32b: [u8; 32] = u.try_into().unwrap();
    x25519_dalek::x25519(k32, u32b).to_vec()
}

/// Relies on chacha20poly1305::ChaCha20Poly1305 and the Aead impl:
/// sealing is deterministic in key, nonce and message, appends the
/// 16-byte tag, and fails only on a message of 2^32 - 1 or more
/// 64-byte cipher blocks - so it succeeds on anything shorter than
/// 0x3FFFFFFFC0 bytes.
#[verifier::external_body]
pub(crate) fn aead_seal(key: &[u8], nonce: &[u8], msg: &[u8]) -> (r: Option<Vec<u8>>)
    requires
        key@.len() == 32,
        nonce@.len() == 12,
    ensures
        msg@.len() < 0x3FFFFFFFC0 ==> r is Some,
        r is Some ==> r.unwrap()@ == spec_aead_seal(key@, nonce@, msg@),
        r is Some ==> r.unwrap()@.len() == msg@.len() + 16,
{
    let cipher = <chacha20poly1305::ChaCha20Poly1305 as chacha20poly1305::KeyInit>::new_from_slice(key).ok()?;
    let nonce12 = chacha20poly1305::Nonce::from_slice(nonce);
    chacha20poly1305::aead::Aead::encrypt(&cipher, nonce12, msg).ok()
}

/// Relies on chacha20poly1305::ChaCha20Poly1305 and the Aead impl:
/// opening inverts sealing under the same key and nonce, and fails on
/// any other ciphertext whose tag does not authenticate.
#[verifier::external_body]
pub(crate) fn aead_open(key: &[u8], nonce: &[u8], ct: &[u8]) -> (r: Option<Vec<u8>>)
    requires
        key@.len() == 32,
        nonce@.len() == 12,
    ensures
        r is Some <==> spec_aead_open(key@, nonce@, ct@) is Some,
        r is Some ==> r.unwrap()@ == spec_aead_open(key@, nonce@, ct@).unwrap(),
        forall|m: Seq<u8>| ct@ == spec_aead_seal(key@, nonce@, m)
            ==> r is Some && r.unwrap()@ == m,
{
    let cipher = <chacha20poly1305::ChaCha20Poly1305 as chacha20poly1305::KeyInit>::new_from_slice(key).ok()?;
    let nonce12 = chacha20poly1305::Nonce::from_slice(nonce);
    chacha20poly1305::aead::Aead::decrypt(&cipher, nonce12, ct).ok()
}

/// Relies on rand::rngs::OsRng::fill_bytes: 32 bytes from the OS
/// cryptographic random source; nothing is promised of their values.
/// Where the host exposes no working random source, fill_bytes
/// aborts the process - the documented OsRng behavior, outside any
/// input this library controls.
#[verifier::external_body]
pub(crate) fn random_bytes_32() -> (r: Vec<u8>)
    ensures
        r@.len() == 32,
{
    let mut key = [0u8; 32];
    rand::RngCore::fill_bytes(&mut rand::rngs::OsRng, &mut key);
    key.to_vec()
}

} // verus!
