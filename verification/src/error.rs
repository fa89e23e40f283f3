use vstd::prelude::*;
use vstd::string::*;

verus! {

/// Every way an operation of this library can fail. Failures of the
/// filesystem and of the envelope's text form arise in the host, which
/// reports them itself.
#[derive(Clone, Copy, Debug, PartialEq, Eq, Structural)]
pub enum VaultError {
    /// The cipher rejected the key material.
    CipherInit,
    /// Sealing a payload failed.
    Encryption,
    /// Opening a payload failed: it was tampered with, corrupted, or sealed
    /// under another key.
    Decryption,
    /// A field is not valid base64, or a payload is not valid UTF-8.
    Encoding,
    /// The password record does not consist of exactly two fields.
    CorruptedRecord,
    /// The salt of the password record is not twelve bytes long.
    InvalidSalt,
    /// No password has been set up.
    NotConfigured,
    /// The password given as the current one does not verify.
    WrongPassword,
}

impl VaultError {
    /// The label that `message` returns for this error.
    pub open spec fn label(self) -> Seq<char> {
        match self {
            VaultError::CipherInit => "Failed to create cipher"@,
            VaultError::Encryption => "Encryption failed"@,
            VaultError::Decryption => "Decryption failed"@,
            VaultError::Encoding => "Invalid encoding"@,
            VaultError::CorruptedRecord => "Corrupted password data"@,
            VaultError::InvalidSalt => "Invalid salt length"@,
            VaultError::NotConfigured => "Password not set up"@,
            VaultError::WrongPassword => "原密码错误"@,
        }
    }

    /// A human-readable message for this error.
    pub fn message(&self) -> (text: String)
        ensures
            text@ == self.label(),
    {
        let label: &str = match self {
            VaultError::CipherInit => "Failed to create cipher",
            VaultError::Encryption => "Encryption failed",
            VaultError::Decryption => "Decryption failed",
            VaultError::Encoding => "Invalid encoding",
            VaultError::CorruptedRecord => "Corrupted password data",
            VaultError::InvalidSalt => "Invalid salt length",
            VaultError::NotConfigured => "Password not set up",
            VaultError::WrongPassword => "原密码错误",
        };
        String::from_str(label)
    }
}

} // verus!
