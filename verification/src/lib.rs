//! Local secret storage for a password-protected application: a persistent
//! master key, authenticated encryption of payloads under that key, and a
//! salted verification record for the unlock password.

pub mod bytes;
pub mod cipher;
pub mod codec;
pub mod credentials;
pub mod encoding;
pub mod error;
pub mod forwarder;
pub mod kdf;
pub mod key_store;
pub mod random;
