//! A minimal AEAD (authenticated encryption with associated data) helper
//! around AES-256-GCM: a single symmetric-key seal/open pair over byte
//! sequences, with a closed set of error kinds.

pub mod cipher;
pub mod error;
pub mod gcm;
