//! Sealing and opening: the verified seal/open pair over AES-256-GCM, and
//! the entry points that generate their own nonce.

use vstd::prelude::*;
use crate::error::CryptoError;
use crate::gcm::{
    gcm_encrypt, gcm_decrypt, os_random_nonce, gcm_seal_bytes, aad_bytes, KEY_LEN, NONCE_LEN,
    TAG_LEN, GCM_P_MAX, GCM_A_MAX,
};

verus! {

/// A ciphertext opens to `plaintext` under `key`, `nonce` and `aad` exactly
/// when it is the sealing of that plaintext under them: the tag verifies on
/// nothing else.
pub open spec fn opens_to(
    key: Seq<u8>,
    nonce: Seq<u8>,
    ciphertext: Seq<u8>,
    aad: Seq<u8>,
    plaintext: Seq<u8>,
) -> bool {
    ciphertext == gcm_seal_bytes(key, nonce, plaintext, aad)
}

/// Seal `plaintext` under `key` with associated data `aad`: AES-256-GCM
/// encryption with the 16-byte tag appended. A caller may fix the nonce;
/// with `None` a fresh one is drawn from the secure random source. Returns
/// the nonce actually used beside the ciphertext.
pub fn seal(key: &[u8], nonce: Option<&[u8]>, plaintext: &[u8], aad: Option<&[u8]>) -> (r: Result<(Vec<u8>, Vec<u8>), CryptoError>)
    ensures
        r matches Ok(nc) ==> nc.0@.len() == NONCE_LEN && nc.1@ == gcm_seal_bytes(
            key@,
            nc.0@,
            plaintext@,
            aad_bytes(aad),
        ) && nc.1@.len() == plaintext@.len() + TAG_LEN,
        r matches Ok(nc) ==> (nonce matches Some(n) ==> nc.0@ == n@),
        (r matches Err(CryptoError::KeyError)) <==> key@.len() != KEY_LEN,
        (r matches Err(CryptoError::InputError)) <==> key@.len() == KEY_LEN && (nonce matches Some(n)
            && n@.len() != NONCE_LEN),
        r matches Err(e) ==> e != CryptoError::AuthenticationError,
        key@.len() == KEY_LEN && (nonce matches Some(n) && n@.len() == NONCE_LEN)
            && plaintext@.len() <= GCM_P_MAX && aad_bytes(aad).len() <= GCM_A_MAX ==> r is Ok,
{
    if key.len() != KEY_LEN {
        return Err(CryptoError::KeyError);
    }
    let nonce_bytes: Vec<u8> = match nonce {
        Some(n) => {
            if n.len() != NONCE_LEN {
                return Err(CryptoError::InputError);
            }
            vstd::slice::slice_to_vec(n)
        },
        None => {
            match os_random_nonce() {
                Some(v) => v,
                None => {
                    return Err(CryptoError::EncryptionError);
                },
            }
        },
    };
    match gcm_encrypt(key, nonce_bytes.as_slice(), plaintext, aad) {
        Ok(ciphertext) => Ok((nonce_bytes, ciphertext)),
        Err(_) => Err(CryptoError::EncryptionError),
    }
}

/// Open `ciphertext` (ciphertext with the tag appended) under `key`, `nonce`
/// and `aad`. Succeeds exactly on the output of sealing under the same key,
/// nonce and AAD, and then returns the plaintext that was sealed; any
/// tampering, wrong key, wrong nonce or wrong AAD fails closed with
/// `AuthenticationError` and yields no plaintext at all.
pub fn open(key: &[u8], nonce: &[u8], ciphertext: &[u8], aad: Option<&[u8]>) -> (r: Result<Vec<u8>, CryptoError>)
    ensures
        r matches Ok(p) ==> opens_to(key@, nonce@, ciphertext@, aad_bytes(aad), p@)
            && p@.len() + TAG_LEN == ciphertext@.len(),
        forall|p: Seq<u8>|
            key@.len() == KEY_LEN && nonce@.len() == NONCE_LEN
                && #[trigger] opens_to(key@, nonce@, ciphertext@, aad_bytes(aad), p)
                && p.len() + TAG_LEN == ciphertext@.len()
                && p.len() <= GCM_P_MAX && aad_bytes(aad).len() <= GCM_A_MAX
                ==> (r matches Ok(q) && q@ == p),
        (r matches Err(CryptoError::KeyError)) <==> key@.len() != KEY_LEN,
        (r matches Err(CryptoError::InputError)) <==> key@.len() == KEY_LEN && (nonce@.len() != NONCE_LEN
            || ciphertext@.len() < TAG_LEN),
        r matches Err(e) ==> e != CryptoError::EncryptionError,
{
    if key.len() != KEY_LEN {
        return Err(CryptoError::KeyError);
    }
    if nonce.len() != NONCE_LEN || ciphertext.len() < TAG_LEN {
        return Err(CryptoError::InputError);
    }
    match gcm_decrypt(key, nonce, ciphertext, aad) {
        Ok(plaintext) => Ok(plaintext),
        Err(_) => Err(CryptoError::AuthenticationError),
    }
}

/// Encrypt `plaintext` with AES-256-GCM under a freshly generated nonce.
/// Returns the 12-byte nonce used and the ciphertext with the tag appended.
pub fn encrypt_aes256_gcm(key_bytes: &[u8; 32], plaintext: &[u8], aad: Option<&[u8]>) -> (r: Result<(Vec<u8>, Vec<u8>), CryptoError>)
    ensures
        r matches Ok(nc) ==> nc.0@.len() == NONCE_LEN && nc.1@ == gcm_seal_bytes(
            key_bytes@,
            nc.0@,
            plaintext@,
            aad_bytes(aad),
        ) && nc.1@.len() == plaintext@.len() + TAG_LEN,
        r matches Err(e) ==> e == CryptoError::EncryptionError,
{
    seal(key_bytes.as_slice(), None, plaintext, aad)
}

/// Decrypt with AES-256-GCM: open `ciphertext` under the nonce returned at
/// encryption time. Succeeds exactly on untampered output of
/// `encrypt_aes256_gcm` under the same key, nonce and AAD.
pub fn decrypt_aes256_gcm(key_bytes: &[u8; 32], nonce_bytes: &[u8], ciphertext: &[u8], aad: Option<&[u8]>) -> (r: Result<Vec<u8>, CryptoError>)
    ensures
        r matches Ok(p) ==> opens_to(key_bytes@, nonce_bytes@, ciphertext@, aad_bytes(aad), p@)
            && p@.len() + TAG_LEN == ciphertext@.len(),
        forall|p: Seq<u8>|
            nonce_bytes@.len() == NONCE_LEN
                && #[trigger] opens_to(key_bytes@, nonce_bytes@, ciphertext@, aad_bytes(aad), p)
                && p.len() + TAG_LEN == ciphertext@.len()
                && p.len() <= GCM_P_MAX && aad_bytes(aad).len() <= GCM_A_MAX
                ==> (r matches Ok(q) && q@ == p),
        (r matches Err(CryptoError::InputError)) <==> nonce_bytes@.len() != NONCE_LEN
            || ciphertext@.len() < TAG_LEN,
        r matches Err(e) ==> e == CryptoError::InputError || e == CryptoError::AuthenticationError,
{
    open(key_bytes.as_slice(), nonce_bytes, ciphertext, aad)
}

/// Round trip: sealing a plaintext under a 32-byte key, a 12-byte nonce and
/// some AAD yields a ciphertext that opens, under the same key, nonce and
/// AAD, to that very plaintext.
pub proof fn lemma_round_trip(key: Seq<u8>, nonce: Seq<u8>, plaintext: Seq<u8>, aad: Seq<u8>)
    requires
        key.len() == KEY_LEN,
        nonce.len() == NONCE_LEN,
    ensures
        opens_to(key, nonce, gcm_seal_bytes(key, nonce, plaintext, aad), aad, plaintext),
{
}

} // verus!
