use crate::cipher::CIPHER_KEY_LEN;
use crate::random::random_key;
use vstd::array::array_as_slice;
use vstd::prelude::*;
use vstd::slice::slice_to_vec;

verus! {

/// Name of the file that holds the master key, inside the secret directory.
pub const KEY_FILE: &'static str = "master_key.bin";

/// The platforms that keep the secret directory in different places.
#[derive(Clone, Copy, Debug, PartialEq, Eq, Structural)]
pub enum Platform {
    MacOs,
    Windows,
    /// Linux and every other platform.
    Other,
}

/// Where a platform keeps the secret directory, below the user's home
/// directory.
pub open spec fn secret_dir_of(platform: Platform) -> Seq<char> {
    match platform {
        Platform::MacOs => "Library/Application Support/com.keeyper.app"@,
        Platform::Windows => "AppData/Roaming/Keeyper"@,
        Platform::Other => ".config/keeyper"@,
    }
}

/// The path of the secret directory on `platform`, relative to the user's
/// home directory. It is fixed per platform and cannot be configured.
pub fn secret_dir(platform: Platform) -> (path: &'static str)
    ensures
        path@ == secret_dir_of(platform),
{
    match platform {
        Platform::MacOs => "Library/Application Support/com.keeyper.app",
        Platform::Windows => "AppData/Roaming/Keeyper",
        Platform::Other => ".config/keeyper",
    }
}

/// The master key of an installation, and whether it still has to be
/// written to the key file.
#[derive(Clone, Debug)]
pub struct MasterKey {
    /// The key bytes.
    pub bytes: Vec<u8>,
    /// True where the key was made by this call: the caller must persist it
    /// before using it. False where it was read from the key file, which
    /// then stays untouched.
    pub created: bool,
}

/// Gives the master key for the content of the key file, `stored`, which is
/// `None` where the file does not exist, and for the 32 bytes `fresh` that
/// were drawn for the case that a key has to be made.
///
/// An existing file is trusted as it is: its bytes are the key, whatever
/// their number, and `fresh` is not used. Without a file the key is `fresh`.
pub fn master_key_from(stored: Option<Vec<u8>>, fresh: &[u8; 32]) -> (key: MasterKey)
    ensures
        match stored {
            Some(bytes) => key.bytes@ == bytes@ && !key.created,
            None => key.bytes@ == fresh@ && key.created,
        },
{
    match stored {
        Some(bytes) => MasterKey { bytes, created: false },
        None => MasterKey { bytes: slice_to_vec(array_as_slice(fresh)), created: true },
    }
}

/// Gives the master key for the content of the key file, `stored`, which is
/// `None` where the file does not exist.
///
/// An existing file is trusted as it is: its bytes are the key, whatever
/// their number. Without a file a key of 32 random bytes is made; which
/// bytes is not determined by the argument, and `master_key_from` says what
/// the key is for each draw.
pub fn get_or_create_master_key(stored: Option<Vec<u8>>) -> (key: MasterKey)
    ensures
        match stored {
            Some(bytes) => key.bytes@ == bytes@ && !key.created,
            None => key.bytes@.len() == CIPHER_KEY_LEN && key.created,
        },
{
    match stored {
        Some(bytes) => MasterKey { bytes, created: false },
        None => {
            let fresh = random_key();
            master_key_from(None, &fresh)
        },
    }
}

} // verus!
