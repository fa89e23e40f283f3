use aes_gcm::aead::{Aead, KeyInit};
use aes_gcm::{Aes256Gcm, Nonce};
use vstd::prelude::*;

verus! {

/// What AES-256-GCM gives for a plaintext under a key of 32 bytes and a
/// nonce of twelve bytes: the ciphertext followed by its 16-byte tag, or
/// nothing where the cipher refuses the plaintext.
pub uninterp spec fn aes256_gcm_sealed(key: Seq<u8>, nonce: Seq<u8>, plaintext: Seq<u8>) -> Option<
    Seq<u8>,
>;

/// What AES-256-GCM recovers from a sealed message under a key of 32 bytes
/// and a nonce of twelve bytes: the plaintext, or nothing where the tag does
/// not authenticate the message.
pub uninterp spec fn aes256_gcm_opened(key: Seq<u8>, nonce: Seq<u8>, sealed: Seq<u8>) -> Option<
    Seq<u8>,
>;

/// Length of an AES-256 key in bytes.
pub const CIPHER_KEY_LEN: usize = 32;

/// Length of the nonce in bytes.
pub const NONCE_LEN: usize = 12;

/// Length of the authentication tag in bytes.
pub const TAG_LEN: usize = 16;

/// The longest plaintext, in bytes, that the cipher seals.
pub const MAX_PLAINTEXT_LEN: u64 = 0x10_0000_0000;

/// Calls `Aes256Gcm::new_from_slice` and says whether it accepted the key.
///
/// Trusted, not proved: the cipher accepts exactly the keys of 32 bytes.
#[verifier::external_body]
pub(crate) fn cipher_accepts_key(key: &[u8]) -> (accepted: bool)
    ensures
        accepted == (key@.len() == CIPHER_KEY_LEN),
{
    Aes256Gcm::new_from_slice(key).is_ok()
}

/// Calls `Aead::encrypt` on an `Aes256Gcm` made from `key`.
///
/// Trusted, not proved: the outcome is the one named by `aes256_gcm_sealed`;
/// the cipher seals every plaintext of at most `MAX_PLAINTEXT_LEN` bytes;
/// what it returns is 16 bytes longer than the plaintext; and opening it
/// under the same key and nonce gives the plaintext back.
#[verifier::external_body]
pub(crate) fn seal(key: &[u8], nonce: &[u8], plaintext: &[u8]) -> (sealed: Option<Vec<u8>>)
    requires
        key@.len() == CIPHER_KEY_LEN,
        nonce@.len() == NONCE_LEN,
    ensures
        match sealed {
            Some(bytes) => aes256_gcm_sealed(key@, nonce@, plaintext@) == Some(bytes@),
            None => aes256_gcm_sealed(key@, nonce@, plaintext@) is None,
        },
        plaintext@.len() <= MAX_PLAINTEXT_LEN ==> sealed is Some,
        sealed matches Some(bytes) ==> bytes@.len() == plaintext@.len() + TAG_LEN,
        sealed matches Some(bytes) ==> aes256_gcm_opened(key@, nonce@, bytes@) == Some(
            plaintext@,
        ),
{
    let cipher = Aes256Gcm::new_from_slice(key).ok()?;
    cipher.encrypt(Nonce::from_slice(nonce), plaintext).ok()
}

/// Calls `Aead::decrypt` on an `Aes256Gcm` made from `key`.
///
/// Trusted, not proved: the outcome is the one named by `aes256_gcm_opened`.
#[verifier::external_body]
pub(crate) fn open(key: &[u8], nonce: &[u8], sealed: &[u8]) -> (opened: Option<Vec<u8>>)
    requires
        key@.len() == CIPHER_KEY_LEN,
        nonce@.len() == NONCE_LEN,
    ensures
        match opened {
            Some(bytes) => aes256_gcm_opened(key@, nonce@, sealed@) == Some(bytes@),
            None => aes256_gcm_opened(key@, nonce@, sealed@) is None,
        },
{
    let cipher = Aes256Gcm::new_from_slice(key).ok()?;
    cipher.decrypt(Nonce::from_slice(nonce), sealed).ok()
}

} // verus!
