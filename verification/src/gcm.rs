//! The AES-256-GCM primitive and the secure random source, behind trusted
//! bindings, together with the spec-level model that the library's contracts
//! are stated over.

use vstd::prelude::*;
use aes_gcm::aead::Aead;
use aes_gcm::KeyInit;
use rand::RngCore;

verus! {

/// Bytes of a well-formed key.
pub const KEY_LEN: usize = 32;

/// Bytes of a well-formed nonce.
pub const NONCE_LEN: usize = 12;

/// Bytes of authentication tag appended to every ciphertext.
pub const TAG_LEN: usize = 16;

/// Longest plaintext, in bytes, that AES-GCM seals; longer inputs are
/// refused by the primitive.
pub const GCM_P_MAX: u64 = 0x10_0000_0000;

/// Longest AAD, in bytes, that AES-GCM authenticates; longer inputs are
/// refused by the primitive.
pub const GCM_A_MAX: u64 = 0x10_0000_0000;

/// The byte sequence that AES-256-GCM produces when sealing `plaintext`
/// under `key` and `nonce` with associated data `aad`: the encrypted
/// plaintext followed by the 16-byte authentication tag. The primitive is
/// deterministic, so this is a function of the four inputs alone; its value
/// is not stated here.
pub uninterp spec fn gcm_seal_bytes(key: Seq<u8>, nonce: Seq<u8>, plaintext: Seq<u8>, aad: Seq<u8>) -> Seq<u8>;

/// The associated data a call authenticates: absent AAD and the empty byte
/// sequence are the same thing.
pub open spec fn aad_bytes(aad: Option<&[u8]>) -> Seq<u8> {
    match aad {
        Some(a) => a@,
        None => Seq::empty(),
    }
}

/// The opaque failure value that the `aead` crate's operations return.
#[verifier::external_type_specification]
#[verifier::external_body]
pub struct ExAeadError(aead::Error);

/// Relies on `Aead::encrypt` of `aes_gcm::Aes256Gcm`: deterministic
/// AES-256-GCM sealing with the 16-byte tag appended to the ciphertext. It
/// fails exactly when the plaintext or the AAD exceeds the GCM size limit.
#[verifier::external_body]
pub(crate) fn gcm_encrypt(key: &[u8], nonce: &[u8], plaintext: &[u8], aad: Option<&[u8]>) -> (r: Result<Vec<u8>, aead::Error>)
    requires
        key@.len() == KEY_LEN,
        nonce@.len() == NONCE_LEN,
    ensures
        r matches Ok(c) ==> c@ == gcm_seal_bytes(key@, nonce@, plaintext@, aad_bytes(aad)),
        r matches Ok(c) ==> c@.len() == plaintext@.len() + TAG_LEN,
        plaintext@.len() <= GCM_P_MAX && aad_bytes(aad).len() <= GCM_A_MAX ==> r is Ok,
{
    let cipher = aes_gcm::Aes256Gcm::new(aes_gcm::Key::<aes_gcm::Aes256Gcm>::from_slice(key));
    let nonce = aes_gcm::Nonce::from_slice(nonce);
    cipher.encrypt(nonce, aead::Payload { msg: plaintext, aad: aad.unwrap_or(&[]) })
}

/// Relies on `Aead::decrypt` of `aes_gcm::Aes256Gcm`: it recomputes and
/// verifies the appended tag and inverts the sealing keystream, so within
/// the GCM size limits it succeeds exactly on the byte sequences that
/// sealing under the same key, nonce and AAD produces, and then returns the
/// plaintext that was sealed; every other input fails.
#[verifier::external_body]
pub(crate) fn gcm_decrypt(key: &[u8], nonce: &[u8], ciphertext: &[u8], aad: Option<&[u8]>) -> (r: Result<Vec<u8>, aead::Error>)
    requires
        key@.len() == KEY_LEN,
        nonce@.len() == NONCE_LEN,
    ensures
        r matches Ok(p) ==> ciphertext@ == gcm_seal_bytes(key@, nonce@, p@, aad_bytes(aad))
            && p@.len() + TAG_LEN == ciphertext@.len(),
        r is Err ==> forall|p: Seq<u8>|
            p.len() <= GCM_P_MAX && aad_bytes(aad).len() <= GCM_A_MAX
                ==> ciphertext@ != #[trigger] gcm_seal_bytes(key@, nonce@, p, aad_bytes(aad)),
        r matches Ok(q) ==> forall|p: Seq<u8>|
            ciphertext@ == #[trigger] gcm_seal_bytes(key@, nonce@, p, aad_bytes(aad)) ==> q@ == p,
{
    let cipher = aes_gcm::Aes256Gcm::new(aes_gcm::Key::<aes_gcm::Aes256Gcm>::from_slice(key));
    let nonce = aes_gcm::Nonce::from_slice(nonce);
    cipher.decrypt(nonce, aead::Payload { msg: ciphertext, aad: aad.unwrap_or(&[]) })
}

/// Relies on `OsRng::try_fill_bytes` of `rand`: 12 bytes from the operating
/// system's secure random source, or `None` when that source fails. Nothing
/// is assumed about which bytes come back.
#[verifier::external_body]
pub(crate) fn os_random_nonce() -> (r: Option<Vec<u8>>)
    ensures
        r matches Some(v) ==> v@.len() == NONCE_LEN,
{
    let mut buf = [0u8; 12];
    match rand::rngs::OsRng.try_fill_bytes(&mut buf) {
        Ok(()) => Some(buf.to_vec()),
        Err(_) => None,
    }
}

} // verus!
