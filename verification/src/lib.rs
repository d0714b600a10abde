//! Signed notification headers for peer-to-peer messages.
//!
//! A header names the sender of a message, carries a random identifier and a
//! small amount of opaque metadata, and is signed with the sender's key. Its
//! name is the SHA-512 digest of its canonical encoding.

pub mod codec;
pub mod crypto;
pub mod error;
pub mod header;
pub mod keys;
pub mod render;

pub use error::Error;
pub use header::{HeaderView, MpidHeader, GUID_SIZE, MAX_HEADER_METADATA_SIZE};
pub use keys::{PublicKey, SecretKey, Signature, XorName};
