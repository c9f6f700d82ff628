//! The closed set of failures that sealing and opening can report.

use vstd::prelude::*;

verus! {

/// Why a seal or open call failed.
///
/// Opening never reveals more than pass/fail about authentication: every
/// tampered ciphertext, wrong key, wrong nonce or wrong AAD surfaces as the
/// one variant `AuthenticationError`.
#[derive(Clone, Copy, Debug, PartialEq, Eq, Structural)]
pub enum CryptoError {
    /// The key is not exactly 32 bytes long.
    KeyError,
    /// The nonce is not exactly 12 bytes long, or the ciphertext is shorter
    /// than the 16-byte authentication tag.
    InputError,
    /// The authentication tag did not verify: the ciphertext, key, nonce or
    /// AAD does not match what was sealed.
    AuthenticationError,
    /// The underlying cipher failed while sealing; a defect, not a condition
    /// a caller can repair.
    EncryptionError,
}

} // verus!
