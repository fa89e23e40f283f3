use crate::bytes::{fixed_time_equal, held};
use crate::encoding::{base64_data, base64_decode, base64_encode, base64_text, SEPARATOR};
use crate::error::VaultError;
use crate::kdf::{
    derive_key, lemma_verifier_equal_iff_repetitions_agree, password_byte, password_verifier,
    SALT_LEN, VERIFIER_LEN,
};
use crate::random::random_block;
use vstd::array::array_as_slice;
use vstd::prelude::*;
use vstd::slice::slice_subrange;
use vstd::string::*;
use vstd::utf8::*;

verus! {

/// Name of the file that holds the password record, inside the secret
/// directory.
pub const PASSWORD_FILE: &'static str = "password_hash.bin";

/// True where position `k` of `text` holds the only separator in it.
pub open spec fn is_sole_separator(text: Seq<u8>, k: int) -> bool {
    &&& 0 <= k < text.len()
    &&& text[k] == SEPARATOR
    &&& forall|j: int| 0 <= j < text.len() && j != k ==> text[j] != SEPARATOR
}

/// True where splitting `text` at its separators gives exactly two fields.
pub open spec fn has_two_fields(text: Seq<u8>) -> bool {
    exists|k: int| is_sole_separator(text, k)
}

/// The position of the separator in a text of two fields.
pub open spec fn separator_index(text: Seq<u8>) -> int {
    choose|k: int| is_sole_separator(text, k)
}

/// The record that is stored for a password and a salt: the salt and the
/// verifier, each as base64 text, with a separator between them.
pub open spec fn record_text(password: Seq<u8>, salt: Seq<u8>) -> Seq<u8> {
    encode_utf8(base64_text(salt)) + seq![SEPARATOR] + encode_utf8(
        base64_text(password_verifier(password, salt)),
    )
}

/// What checking `password` gives once the two fields of a record are
/// decoded; a field that is not valid base64 text is `None`. The checks
/// come in this order: the salt's encoding, the salt's length, the
/// verifier's encoding; then the stored verifier is compared with the one
/// derived from `password` and the stored salt.
pub open spec fn fields_accept(salt: Option<Seq<u8>>, stored: Option<Seq<u8>>, password: Seq<u8>) -> Result<
    bool,
    VaultError,
> {
    match salt {
        None => Err(VaultError::Encoding),
        Some(salt) => if salt.len() != SALT_LEN {
            Err(VaultError::InvalidSalt)
        } else {
            match stored {
                None => Err(VaultError::Encoding),
                Some(stored) => Ok(password_verifier(password, salt) == stored),
            }
        },
    }
}

/// What checking `password` against the stored `record` gives: a record
/// that does not split into exactly two fields is corrupted; otherwise the
/// two fields are decoded and checked as `fields_accept` says.
pub open spec fn record_accepts(record: Seq<u8>, password: Seq<u8>) -> Result<bool, VaultError> {
    if !has_two_fields(record) {
        Err(VaultError::CorruptedRecord)
    } else {
        let k = separator_index(record);
        fields_accept(
            base64_data(record.subrange(0, k)),
            base64_data(record.subrange(k + 1, record.len() as int)),
            password,
        )
    }
}

/// A separator that is the only one is the one that `separator_index` picks.
pub proof fn lemma_sole_separator_is_unique(text: Seq<u8>, k: int)
    requires
        is_sole_separator(text, k),
    ensures
        has_two_fields(text),
        separator_index(text) == k,
{
    let chosen = separator_index(text);
    assert(is_sole_separator(text, chosen));
    if chosen != k {
        assert(text[chosen] != SEPARATOR);
    }
}

/// Two fields without a separator, joined by one, split again into the same
/// two fields.
pub proof fn lemma_joined_fields_split(first: Seq<u8>, second: Seq<u8>)
    requires
        forall|i: int| 0 <= i < first.len() ==> first[i] != SEPARATOR,
        forall|i: int| 0 <= i < second.len() ==> second[i] != SEPARATOR,
    ensures
        has_two_fields(first + seq![SEPARATOR] + second),
        separator_index(first + seq![SEPARATOR] + second) == first.len(),
        (first + seq![SEPARATOR] + second).subrange(0, first.len() as int) == first,
        (first + seq![SEPARATOR] + second).subrange(
            first.len() as int + 1,
            (first + seq![SEPARATOR] + second).len() as int,
        ) == second,
{
    let joined = first + seq![SEPARATOR] + second;
    let k = first.len() as int;
    assert(joined[k] == SEPARATOR);
    assert forall|j: int| 0 <= j < joined.len() && j != k implies joined[j] != SEPARATOR by {
        if j < k {
            assert(joined[j] == first[j]);
        } else {
            assert(joined[j] == second[j - k - 1]);
        }
    }
    lemma_sole_separator_is_unique(joined, k);
    assert(joined.subrange(0, k) =~= first);
    assert(joined.subrange(k + 1, joined.len() as int) =~= second);
}

/// Finds the separator of a text of two fields.
pub fn find_separator(text: &[u8]) -> (found: Option<usize>)
    ensures
        match found {
            Some(k) => is_sole_separator(text@, k as int),
            None => !has_two_fields(text@),
        },
        forall|k: int| is_sole_separator(text@, k) ==> found == Some(k as usize),
{
    let mut first: Option<usize> = None;
    let mut i: usize = 0;
    while i < text.len()
        invariant
            i <= text@.len(),
            match first {
                Some(k) => k < i && text@[k as int] == SEPARATOR && forall|j: int|
                    0 <= j < i && j != k ==> text@[j] != SEPARATOR,
                None => forall|j: int| 0 <= j < i ==> text@[j] != SEPARATOR,
            },
        decreases text@.len() - i,
    {
        if text[i] == SEPARATOR {
            match first {
                Some(k) => {
                    proof {
                        assert forall|c: int| !is_sole_separator(text@, c) by {
                            if c != k as int {
                                assert(text@[k as int] == SEPARATOR);
                            } else {
                                assert(text@[i as int] == SEPARATOR);
                            }
                        }
                    }
                    return None;
                },
                None => {
                    first = Some(i);
                },
            }
        }
        i += 1;
    }
    proof {
        match first {
            Some(k) => {
                lemma_sole_separator_is_unique(text@, k as int);
            },
            None => {
                assert forall|c: int| !is_sole_separator(text@, c) by {
                    if 0 <= c < text@.len() {
                        assert(text@[c] != SEPARATOR);
                    }
                }
            },
        }
    }
    first
}

/// Builds the record to store for `password` under the given salt.
///
/// Checked against this record, a candidate password is accepted exactly
/// when its verifier under the salt equals that of `password`; so
/// `password` itself is accepted.
pub fn make_password_record(password: &str, salt: &[u8; 12]) -> (record: Vec<u8>)
    ensures
        record@ == record_text(password.spec_bytes(), salt@),
        forall|candidate: Seq<u8>| #[trigger]
            record_accepts(record@, candidate) == Ok::<bool, VaultError>(
                password_verifier(candidate, salt@) == password_verifier(
                    password.spec_bytes(),
                    salt@,
                ),
            ),
{
    let salt_bytes = array_as_slice(salt);
    let key = derive_key(password.as_bytes(), salt_bytes);
    let salt_text = base64_encode(salt_bytes);
    let verifier_text = base64_encode(slice_subrange(key.as_slice(), 0, VERIFIER_LEN));
    let mut record: Vec<u8> = salt_text.as_str().as_bytes_vec();
    record.push(SEPARATOR);
    let tail = verifier_text.as_str().as_bytes_vec();
    let mut i: usize = 0;
    while i < tail.len()
        invariant
            i <= tail@.len(),
            record@ == encode_utf8(salt_text@) + seq![SEPARATOR] + tail@.subrange(0, i as int),
        decreases tail@.len() - i,
    {
        record.push(tail[i]);
        proof {
            assert(tail@.subrange(0, i + 1) =~= tail@.subrange(0, i as int).push(tail@[i as int]));
            assert(record@ =~= encode_utf8(salt_text@) + seq![SEPARATOR] + tail@.subrange(
                0,
                i + 1,
            ));
        }
        i += 1;
    }
    proof {
        assert(tail@.subrange(0, tail@.len() as int) =~= tail@);
        lemma_joined_fields_split(encode_utf8(salt_text@), tail@);
    }
    record
}

/// Checks `password` against the two decoded fields of a record; a field
/// that could not be decoded is `None`.
pub fn check_decoded_fields(salt: Option<Vec<u8>>, stored: Option<Vec<u8>>, password: &str) -> (verdict:
    Result<bool, VaultError>)
    ensures
        verdict == fields_accept(held(salt), held(stored), password.spec_bytes()),
{
    let salt = match salt {
        Some(salt) => salt,
        None => { return Err(VaultError::Encoding); },
    };
    if salt.len() != SALT_LEN {
        return Err(VaultError::InvalidSalt);
    }
    let stored = match stored {
        Some(stored) => stored,
        None => { return Err(VaultError::Encoding); },
    };
    let key = derive_key(password.as_bytes(), salt.as_slice());
    Ok(fixed_time_equal(slice_subrange(key.as_slice(), 0, VERIFIER_LEN), stored.as_slice()))
}

/// Checks `password` against a stored record.
pub fn check_password_record(record: &[u8], password: &str) -> (verdict: Result<bool, VaultError>)
    ensures
        verdict == record_accepts(record@, password.spec_bytes()),
{
    let k = match find_separator(record) {
        Some(k) => k,
        None => { return Err(VaultError::CorruptedRecord); },
    };
    let n: usize = record.len();
    proof {
        lemma_sole_separator_is_unique(record@, k as int);
    }
    let salt = base64_decode(slice_subrange(record, 0, k));
    let stored = base64_decode(slice_subrange(record, k + 1, n));
    check_decoded_fields(salt, stored, password)
}

/// True where two passwords cannot be told apart by a verifier: repeated
/// cyclically, they agree on the first 16 bytes. Equal passwords are alike;
/// so are `ab` and `abab`, and any two that share their first 16 bytes and
/// are at least that long.
pub open spec fn alike(candidate: Seq<u8>, password: Seq<u8>) -> bool {
    forall|i: int| 0 <= i < VERIFIER_LEN ==> password_byte(candidate, i) == password_byte(password, i)
}

/// Every password is like itself.
pub proof fn lemma_alike_is_reflexive(password: Seq<u8>)
    ensures
        alike(password, password),
{
}

/// The password record of an installation, as the password file holds it:
/// absent until a password is set up.
#[derive(Debug)]
pub struct CredentialStore {
    /// The content of the password file, `None` where there is no file.
    pub record: Option<Vec<u8>>,
}

impl CredentialStore {
    /// True once a password has been set up.
    pub open spec fn is_configured(&self) -> bool {
        self.record is Some
    }

    /// What verifying `password` against this store gives.
    pub open spec fn verdict(&self, password: Seq<u8>) -> Result<bool, VaultError> {
        match self.record {
            None => Err(VaultError::NotConfigured),
            Some(record) => record_accepts(record@, password),
        }
    }

    /// True where the store holds the record made for `password` under `salt`.
    pub open spec fn holds_record_of(&self, password: Seq<u8>, salt: Seq<u8>) -> bool {
        match self.record {
            None => false,
            Some(record) => record@ == record_text(password, salt),
        }
    }

    /// True where the store holds a record made for `password` under some
    /// salt, and accepts exactly the passwords that are like `password`.
    pub open spec fn is_set_up_for(&self, password: Seq<u8>) -> bool {
        &&& exists|salt: Seq<u8>| salt.len() == SALT_LEN && #[trigger] self.holds_record_of(password, salt)
        &&& forall|candidate: Seq<u8>| #[trigger]
            self.verdict(candidate) == Ok::<bool, VaultError>(alike(candidate, password))
    }

    /// The store of an installation whose password file holds `record`, or
    /// does not exist.
    pub fn new(record: Option<Vec<u8>>) -> (store: Self)
        ensures
            store.record == record,
    {
        CredentialStore { record }
    }

    /// The store of a fresh installation: no password is set up, and every
    /// verification fails for want of one.
    pub fn unconfigured() -> (store: Self)
        ensures
            !store.is_configured(),
            forall|candidate: Seq<u8>| #[trigger]
                store.verdict(candidate) == Err::<bool, VaultError>(VaultError::NotConfigured),
    {
        CredentialStore { record: None }
    }

    /// Says whether a password has been set up.
    pub fn has_password(&self) -> (configured: bool)
        ensures
            configured == self.is_configured(),
    {
        self.record.is_some()
    }

    /// Checks `password` against the stored record.
    pub fn verify_password(&self, password: &str) -> (verdict: Result<bool, VaultError>)
        ensures
            verdict == self.verdict(password.spec_bytes()),
    {
        match &self.record {
            None => Err(VaultError::NotConfigured),
            Some(record) => check_password_record(record.as_slice(), password),
        }
    }

    /// Replaces whatever record there is by the one for `password` under the
    /// given salt. Afterwards a password verifies exactly when it is like
    /// `password`.
    pub fn setup_password_with_salt(&mut self, password: &str, salt: &[u8; 12])
        ensures
            final(self).is_configured(),
            final(self).holds_record_of(password.spec_bytes(), salt@),
            final(self).is_set_up_for(password.spec_bytes()),
            final(self).verdict(password.spec_bytes()) == Ok::<bool, VaultError>(true),
    {
        let record = make_password_record(password, salt);
        proof {
            let pw = password.spec_bytes();
            assert forall|candidate: Seq<u8>|
                record_accepts(record@, candidate) == Ok::<bool, VaultError>(
                    alike(candidate, pw),
                ) by {
                lemma_verifier_equal_iff_repetitions_agree(candidate, pw, salt@);
                assert(record_accepts(record@, candidate) == Ok::<bool, VaultError>(
                    password_verifier(candidate, salt@) == password_verifier(pw, salt@),
                ));
            }
            assert(alike(pw, pw));
            assert(record_accepts(record@, pw) == Ok::<bool, VaultError>(alike(pw, pw)));
        }
        self.record = Some(record);
        proof {
            assert(final(self).holds_record_of(password.spec_bytes(), salt@));
        }
    }

    /// Sets up `password` under a salt drawn afresh for this call, replacing
    /// whatever record there is.
    ///
    /// The salt is random, so the record is not determined by the argument;
    /// whichever salt was drawn, a password verifies afterwards exactly
    /// when it is like `password`.
    pub fn setup_password(&mut self, password: &str)
        ensures
            final(self).is_configured(),
            final(self).is_set_up_for(password.spec_bytes()),
            final(self).verdict(password.spec_bytes()) == Ok::<bool, VaultError>(true),
    {
        let salt = random_block();
        self.setup_password_with_salt(password, &salt);
    }

    /// Changes the password to `new_password` under the given salt, if
    /// `old_password` verifies.
    ///
    /// Where it does not verify, or cannot be verified, the store is left as
    /// it was.
    pub fn change_password_with_salt(
        &mut self,
        old_password: &str,
        new_password: &str,
        salt: &[u8; 12],
    ) -> (outcome: Result<(), VaultError>)
        ensures
            match old(self).verdict(old_password.spec_bytes()) {
                Ok(true) => {
                    &&& outcome is Ok
                    &&& final(self).holds_record_of(new_password.spec_bytes(), salt@)
                    &&& final(self).is_set_up_for(new_password.spec_bytes())
                },
                Ok(false) => {
                    &&& outcome == Err::<(), VaultError>(VaultError::WrongPassword)
                    &&& *final(self) == *old(self)
                },
                Err(e) => outcome == Err::<(), VaultError>(e) && *final(self) == *old(self),
            },
    {
        match self.verify_password(old_password) {
            Err(e) => Err(e),
            Ok(false) => Err(VaultError::WrongPassword),
            Ok(true) => {
                self.setup_password_with_salt(new_password, salt);
                Ok(())
            },
        }
    }

    /// Changes the password to `new_password`, under a salt drawn afresh, if
    /// `old_password` verifies.
    ///
    /// Where it does not verify, or cannot be verified, the store is left as
    /// it was. After a change a password verifies exactly when it is like
    /// `new_password`: the old one no longer does, unless the two are alike.
    pub fn change_password(&mut self, old_password: &str, new_password: &str) -> (outcome: Result<
        (),
        VaultError,
    >)
        ensures
            match old(self).verdict(old_password.spec_bytes()) {
                Ok(true) => {
                    &&& outcome is Ok
                    &&& final(self).is_set_up_for(new_password.spec_bytes())
                    &&& final(self).verdict(new_password.spec_bytes()) == Ok::<bool, VaultError>(
                        true,
                    )
                    &&& final(self).verdict(old_password.spec_bytes()) == Ok::<bool, VaultError>(
                        alike(old_password.spec_bytes(), new_password.spec_bytes()),
                    )
                },
                Ok(false) => {
                    &&& outcome == Err::<(), VaultError>(VaultError::WrongPassword)
                    &&& *final(self) == *old(self)
                },
                Err(e) => outcome == Err::<(), VaultError>(e) && *final(self) == *old(self),
            },
    {
        match self.verify_password(old_password) {
            Err(e) => Err(e),
            Ok(false) => Err(VaultError::WrongPassword),
            Ok(true) => {
                self.setup_password(new_password);
                Ok(())
            },
        }
    }
}

/// Without a record nothing verifies: every check ends in the error that
/// no password is set up.
pub proof fn lemma_unconfigured_store_verifies_nothing(store: CredentialStore, candidate: Seq<u8>)
    requires
        !store.is_configured(),
    ensures
        store.verdict(candidate) == Err::<bool, VaultError>(VaultError::NotConfigured),
{
}

/// A store that is set up for a password is configured, verifies that
/// password, and rejects every candidate that is not like it.
pub proof fn lemma_set_up_store_verdicts(
    store: CredentialStore,
    password: Seq<u8>,
    candidate: Seq<u8>,
)
    requires
        store.is_set_up_for(password),
    ensures
        store.is_configured(),
        store.verdict(password) == Ok::<bool, VaultError>(true),
        store.verdict(candidate) == Ok::<bool, VaultError>(alike(candidate, password)),
        !alike(candidate, password) ==> store.verdict(candidate) == Ok::<bool, VaultError>(false),
{
    lemma_alike_is_reflexive(password);
    assert(store.verdict(password) == Ok::<bool, VaultError>(alike(password, password)));
    assert(store.verdict(candidate) == Ok::<bool, VaultError>(alike(candidate, password)));
    let salt = choose|salt: Seq<u8>|
        salt.len() == SALT_LEN && #[trigger] store.holds_record_of(password, salt);
    assert(store.holds_record_of(password, salt));
}

} // verus!
