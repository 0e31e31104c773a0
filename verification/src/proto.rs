//! The packet format: header, payload, key derivation, authenticated encryption
//! and the checks on a decoded payload.
//!
//! A packet is laid out as
//!
//! ```text
//! [Header (4)] [GCM nonce (12)] [ciphertext and GCM tag] [HMAC-SHA256 (32)]
//! ```

pub mod aead;
pub mod error;
pub mod header;
pub mod hmac;
pub mod kdf;
pub mod packet;
pub mod payload;
pub mod types;
pub mod validate;
