use vstd::array::array_as_slice;
use vstd::prelude::*;
use vstd::string::*;

verus! {

/// Number of bytes in a salt.
pub const SALT_LEN: usize = 12;

/// Number of bytes of derived key material.
pub const KEY_LEN: usize = 32;

/// Number of leading bytes of the key material that are kept as the verifier.
pub const VERIFIER_LEN: usize = 16;

/// The password byte that enters output position `i`: the password repeated
/// cyclically. An empty password contributes zero, the identity of XOR.
pub open spec fn password_byte(password: Seq<u8>, i: int) -> u8 {
    if password.len() == 0 {
        0u8
    } else {
        password[i % (password.len() as int)]
    }
}

/// Byte `i` of the key material: the cyclic password byte, XOR the cyclic
/// salt byte, XOR the position.
pub open spec fn derived_byte(password: Seq<u8>, salt: Seq<u8>, i: int) -> u8 {
    password_byte(password, i) ^ salt[i % (SALT_LEN as int)] ^ (i as u8)
}

/// The 32 bytes of key material for a password and a salt of twelve bytes.
pub open spec fn derived_key(password: Seq<u8>, salt: Seq<u8>) -> Seq<u8> {
    Seq::new(KEY_LEN as nat, |i: int| derived_byte(password, salt, i))
}

/// The verifier kept on disk: the first 16 bytes of the key material.
pub open spec fn password_verifier(password: Seq<u8>, salt: Seq<u8>) -> Seq<u8> {
    derived_key(password, salt).subrange(0, VERIFIER_LEN as int)
}

/// Derives the key material from the bytes of a password.
///
/// This is a plain XOR mix, not a password hash: it has no work factor and
/// is easily inverted by anyone who holds the salt.
pub(crate) fn derive_key(password: &[u8], salt: &[u8]) -> (key: Vec<u8>)
    requires
        salt@.len() == SALT_LEN,
    ensures
        key@ == derived_key(password@, salt@),
{
    let n: usize = password.len();
    let mut key: Vec<u8> = Vec::new();
    let mut i: usize = 0;
    while i < KEY_LEN
        invariant
            i <= KEY_LEN,
            n == password@.len(),
            salt@.len() == SALT_LEN,
            key@.len() == i,
            forall|j: int| 0 <= j < i ==> key@[j] == derived_byte(password@, salt@, j),
        decreases KEY_LEN - i,
    {
        let p: u8 = if n == 0 {
            0
        } else {
            password[i % n]
        };
        let b: u8 = p ^ salt[i % SALT_LEN] ^ (i as u8);
        key.push(b);
        i += 1;
    }
    assert(key@ =~= derived_key(password@, salt@));
    key
}

/// Derives the key material from a password, taken as its UTF-8 bytes.
pub fn derive_key_from_password(password: &str, salt: &[u8; 12]) -> (key: Vec<u8>)
    ensures
        key@ == derived_key(password.spec_bytes(), salt@),
{
    derive_key(password.as_bytes(), array_as_slice(salt))
}

/// XOR with the same two bytes is one-to-one.
proof fn lemma_xor_cancel(a: u8, b: u8, s: u8, t: u8)
    ensures
        (a ^ s ^ t == b ^ s ^ t) <==> a == b,
{
    assert((a ^ s ^ t == b ^ s ^ t) <==> a == b) by (bit_vector);
}

/// Two passwords have the same verifier under a salt exactly when their
/// cyclic repetitions agree on the first 16 positions. In particular the
/// salt plays no part in which passwords a verifier accepts.
pub proof fn lemma_verifier_equal_iff_repetitions_agree(a: Seq<u8>, b: Seq<u8>, salt: Seq<u8>)
    requires
        salt.len() == SALT_LEN,
    ensures
        password_verifier(a, salt) == password_verifier(b, salt) <==> (forall|i: int|
            0 <= i < VERIFIER_LEN ==> password_byte(a, i) == password_byte(b, i)),
{
    if password_verifier(a, salt) == password_verifier(b, salt) {
        assert forall|i: int| 0 <= i < 16 implies password_byte(a, i) == password_byte(b, i) by {
            assert(password_verifier(a, salt)[i] == derived_byte(a, salt, i));
            assert(password_verifier(b, salt)[i] == derived_byte(b, salt, i));
            lemma_xor_cancel(password_byte(a, i), password_byte(b, i), salt[i % 12], i as u8);
        }
    }
    if forall|i: int| 0 <= i < 16 ==> password_byte(a, i) == password_byte(b, i) {
        assert forall|i: int| 0 <= i < 16 implies password_verifier(a, salt)[i] == password_verifier(b, salt)[i] by {
            assert(password_byte(a, i) == password_byte(b, i));
        }
        assert(password_verifier(a, salt) =~= password_verifier(b, salt));
    }
}

} // verus!
