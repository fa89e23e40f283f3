use crate::bytes::held;
use crate::cipher::{
    aes256_gcm_opened, aes256_gcm_sealed, cipher_accepts_key, open, seal, CIPHER_KEY_LEN,
    MAX_PLAINTEXT_LEN, NONCE_LEN, TAG_LEN,
};
use crate::encoding::{base64_data, base64_decode, base64_encode, base64_text, string_from_utf8};
use crate::error::VaultError;
use crate::random::random_block;
use vstd::array::array_as_slice;
use vstd::prelude::*;
use vstd::string::*;
use vstd::utf8::*;

verus! {

/// One encrypted payload: the nonce it was sealed under and the sealed
/// bytes, each as base64 text.
#[derive(Clone, Debug)]
pub struct EncryptedData {
    pub nonce: String,
    pub ciphertext: String,
}

impl EncryptedData {
    /// The bytes of the nonce field.
    pub open spec fn nonce_text(&self) -> Seq<u8> {
        encode_utf8(self.nonce@)
    }

    /// The bytes of the ciphertext field.
    pub open spec fn ciphertext_text(&self) -> Seq<u8> {
        encode_utf8(self.ciphertext@)
    }
}

/// The two fields of the envelope that seals `plaintext` under `key` and
/// `nonce`, or the error that sealing ends in.
pub open spec fn sealed_envelope(key: Seq<u8>, nonce: Seq<u8>, plaintext: Seq<char>) -> Result<
    (Seq<char>, Seq<char>),
    VaultError,
> {
    if key.len() != CIPHER_KEY_LEN {
        Err(VaultError::CipherInit)
    } else {
        match aes256_gcm_sealed(key, nonce, encode_utf8(plaintext)) {
            None => Err(VaultError::Encryption),
            Some(sealed) => Ok((base64_text(nonce), base64_text(sealed))),
        }
    }
}

/// The nonce and the sealed bytes that the two decoded fields of an envelope
/// give. A field that is not valid base64 text, `None`, is an encoding
/// error, whichever field it is; only when both are decoded is the nonce's
/// length looked at, and a nonce that is not twelve bytes long, which cannot
/// authenticate anything, is a decryption error.
pub open spec fn accepted_fields(nonce: Option<Seq<u8>>, sealed: Option<Seq<u8>>) -> Result<
    (Seq<u8>, Seq<u8>),
    VaultError,
> {
    match (nonce, sealed) {
        (Some(nonce), Some(sealed)) => if nonce.len() != NONCE_LEN {
            Err(VaultError::Decryption)
        } else {
            Ok((nonce, sealed))
        },
        _ => Err(VaultError::Encoding),
    }
}

/// The payload that the cipher's answer gives: a message that did not
/// authenticate, `None`, is a decryption error; bytes that are not valid
/// UTF-8 are an encoding error.
pub open spec fn accepted_payload(opened: Option<Seq<u8>>) -> Result<Seq<char>, VaultError> {
    match opened {
        None => Err(VaultError::Decryption),
        Some(bytes) => if valid_utf8(bytes) {
            Ok(decode_utf8(bytes))
        } else {
            Err(VaultError::Encoding)
        },
    }
}

/// The payload that an envelope with the given two fields holds under `key`,
/// or the error that opening it ends in. The checks come in this order: the
/// key, the encoding of both fields, the nonce's length, the authentication
/// tag, the payload's encoding.
pub open spec fn opened_payload(key: Seq<u8>, nonce_text: Seq<u8>, ciphertext_text: Seq<u8>) -> Result<
    Seq<char>,
    VaultError,
> {
    if key.len() != CIPHER_KEY_LEN {
        Err(VaultError::CipherInit)
    } else {
        match accepted_fields(base64_data(nonce_text), base64_data(ciphertext_text)) {
            Err(e) => Err(e),
            Ok((nonce, sealed)) => accepted_payload(aes256_gcm_opened(key, nonce, sealed)),
        }
    }
}

/// Checks the two decoded fields of an envelope; a field that could not be
/// decoded is `None`.
pub fn accept_fields(nonce: Option<Vec<u8>>, sealed: Option<Vec<u8>>) -> (outcome: Result<
    (Vec<u8>, Vec<u8>),
    VaultError,
>)
    ensures
        match outcome {
            Ok(fields) => accepted_fields(held(nonce), held(sealed)) == Ok::<
                (Seq<u8>, Seq<u8>),
                VaultError,
            >((fields.0@, fields.1@)),
            Err(e) => accepted_fields(held(nonce), held(sealed)) == Err::<
                (Seq<u8>, Seq<u8>),
                VaultError,
            >(e),
        },
{
    match (nonce, sealed) {
        (Some(nonce), Some(sealed)) => if nonce.len() != NONCE_LEN {
            Err(VaultError::Decryption)
        } else {
            Ok((nonce, sealed))
        },
        _ => Err(VaultError::Encoding),
    }
}

/// Turns the cipher's answer into the payload; a message that did not
/// authenticate is `None`.
pub fn accept_payload(opened: Option<Vec<u8>>) -> (outcome: Result<String, VaultError>)
    ensures
        match outcome {
            Ok(payload) => accepted_payload(held(opened)) == Ok::<Seq<char>, VaultError>(
                payload@,
            ),
            Err(e) => accepted_payload(held(opened)) == Err::<Seq<char>, VaultError>(e),
        },
{
    match opened {
        None => Err(VaultError::Decryption),
        Some(bytes) => match string_from_utf8(bytes) {
            Some(payload) => Ok(payload),
            None => Err(VaultError::Encoding),
        },
    }
}

/// Seals `data` under `key` and the given nonce.
///
/// In what is returned the nonce field decodes to the nonce, the ciphertext
/// field decodes to the payload's length and a tag of 16 bytes more, and
/// the whole opens again, under the same key, to `data`.
pub fn encrypt_with_nonce(key: &[u8], nonce: &[u8; 12], data: &str) -> (outcome: Result<
    EncryptedData,
    VaultError,
>)
    ensures
        match outcome {
            Ok(envelope) => {
                &&& sealed_envelope(key@, nonce@, data@) == Ok::<
                    (Seq<char>, Seq<char>),
                    VaultError,
                >((envelope.nonce@, envelope.ciphertext@))
                &&& base64_data(envelope.nonce_text()) == Some(nonce@)
                &&& base64_data(envelope.ciphertext_text()) matches Some(sealed) && sealed.len()
                    == data.spec_bytes().len() + TAG_LEN
                &&& opened_payload(key@, envelope.nonce_text(), envelope.ciphertext_text())
                    == Ok::<Seq<char>, VaultError>(data@)
            },
            Err(e) => sealed_envelope(key@, nonce@, data@) == Err::<
                (Seq<char>, Seq<char>),
                VaultError,
            >(e),
        },
        key@.len() == CIPHER_KEY_LEN && data.spec_bytes().len() <= MAX_PLAINTEXT_LEN
            ==> outcome is Ok,
{
    if !cipher_accepts_key(key) {
        return Err(VaultError::CipherInit);
    }
    let nonce_bytes = array_as_slice(nonce);
    match seal(key, nonce_bytes, data.as_bytes()) {
        None => Err(VaultError::Encryption),
        Some(sealed) => {
            let envelope = EncryptedData {
                nonce: base64_encode(nonce_bytes),
                ciphertext: base64_encode(sealed.as_slice()),
            };
            proof {
                encode_utf8_valid_utf8(data@);
                encode_utf8_decode_utf8(data@);
            }
            Ok(envelope)
        },
    }
}

/// Seals `data` under `key` and a nonce drawn afresh for this call.
///
/// The nonce is random, so the envelope is not determined by the arguments;
/// whichever nonce was drawn, the envelope is the one that
/// `encrypt_with_nonce` gives for it: its nonce field decodes to that
/// nonce, its ciphertext field to the payload's length and a tag of 16
/// bytes more, and the whole opens again to `data`.
pub fn encrypt_data(key: &[u8], data: &str) -> (outcome: Result<EncryptedData, VaultError>)
    ensures
        match outcome {
            Ok(envelope) => {
                &&& exists|nonce: Seq<u8>|
                    nonce.len() == NONCE_LEN && base64_data(envelope.nonce_text()) == Some(nonce)
                        && #[trigger] sealed_envelope(key@, nonce, data@) == Ok::<
                        (Seq<char>, Seq<char>),
                        VaultError,
                    >((envelope.nonce@, envelope.ciphertext@))
                &&& base64_data(envelope.ciphertext_text()) matches Some(sealed) && sealed.len()
                    == data.spec_bytes().len() + TAG_LEN
                &&& opened_payload(key@, envelope.nonce_text(), envelope.ciphertext_text())
                    == Ok::<Seq<char>, VaultError>(data@)
            },
            Err(e) => if key@.len() != CIPHER_KEY_LEN {
                e == VaultError::CipherInit
            } else {
                e == VaultError::Encryption && data.spec_bytes().len() > MAX_PLAINTEXT_LEN
            },
        },
        key@.len() != CIPHER_KEY_LEN ==> outcome is Err,
{
    if !cipher_accepts_key(key) {
        return Err(VaultError::CipherInit);
    }
    let nonce = random_block();
    let outcome = encrypt_with_nonce(key, &nonce, data);
    proof {
        if outcome is Ok {
            assert(nonce@.len() == NONCE_LEN);
        }
    }
    outcome
}

/// Opens an envelope under `key` and returns the payload it holds.
///
/// Both fields are decoded before anything else is looked at, so a field
/// that is not valid base64 text is an encoding error whatever the other
/// holds. A decoded nonce that is not twelve bytes long is then reported
/// as a decryption error, like any other envelope that does not
/// authenticate.
pub fn decrypt_data(key: &[u8], envelope: &EncryptedData) -> (outcome: Result<String, VaultError>)
    ensures
        match outcome {
            Ok(payload) => opened_payload(key@, envelope.nonce_text(), envelope.ciphertext_text())
                == Ok::<Seq<char>, VaultError>(payload@),
            Err(e) => opened_payload(key@, envelope.nonce_text(), envelope.ciphertext_text())
                == Err::<Seq<char>, VaultError>(e),
        },
{
    if !cipher_accepts_key(key) {
        return Err(VaultError::CipherInit);
    }
    let nonce = base64_decode(envelope.nonce.as_str().as_bytes());
    let sealed = base64_decode(envelope.ciphertext.as_str().as_bytes());
    match accept_fields(nonce, sealed) {
        Err(e) => Err(e),
        Ok(fields) => accept_payload(open(key, fields.0.as_slice(), fields.1.as_slice())),
    }
}

} // verus!
