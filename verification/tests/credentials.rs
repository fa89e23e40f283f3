use keeyper::bytes::{bytes_equal, fixed_time_equal};
use keeyper::credentials::{
    check_decoded_fields, check_password_record, find_separator, make_password_record,
    CredentialStore, PASSWORD_FILE,
};
use keeyper::error::VaultError;

fn counting_salt() -> [u8; 12] {
    [0, 1, 2, 3, 4, 5, 6, 7, 8, 9, 10, 11]
}

#[test]
fn record_exact_text() {
    let record = make_password_record("hunter2", &counting_salt());
    assert_eq!(
        record,
        b"AAECAwQFBgcICQoL:aHVudGVyMmh1bnRlfj5keQ==".to_vec()
    );
}

#[test]
fn record_has_salt_and_verifier_of_documented_sizes() {
    let record = make_password_record("pw", &[0xee; 12]);
    let k = find_separator(&record).unwrap();
    assert_eq!(k, 16);
    assert_eq!(record.len(), 16 + 1 + 24);
}

#[test]
fn record_accepts_its_password_and_rejects_another() {
    let record = make_password_record("hunter2", &[0x42; 12]);
    assert_eq!(check_password_record(&record, "hunter2"), Ok(true));
    assert_eq!(check_password_record(&record, "wrong"), Ok(false));
    assert_eq!(check_password_record(&record, "hunter3"), Ok(false));
    assert_eq!(check_password_record(&record, ""), Ok(false));
}

#[test]
fn stored_record_example_verifies() {
    let record = b"AAECAwQFBgcICQoL:aHVudGVyMmh1bnRlfj5keQ==";
    assert_eq!(check_password_record(record, "hunter2"), Ok(true));
    assert_eq!(check_password_record(record, "Hunter2"), Ok(false));
}

#[test]
fn record_without_separator_is_corrupted() {
    assert_eq!(
        check_password_record(b"AAECAwQFBgcICQoL", "x"),
        Err(VaultError::CorruptedRecord)
    );
    assert_eq!(check_password_record(b"", "x"), Err(VaultError::CorruptedRecord));
}

#[test]
fn record_with_two_separators_is_corrupted() {
    assert_eq!(
        check_password_record(b"AAECAwQFBgcICQoL:aHVudGVyMmh1bnRlfj5keQ==:", "hunter2"),
        Err(VaultError::CorruptedRecord)
    );
    assert_eq!(check_password_record(b"::", "x"), Err(VaultError::CorruptedRecord));
}

#[test]
fn record_with_bad_salt_text_is_an_encoding_error() {
    assert_eq!(
        check_password_record(b"!!!!:aHVudGVyMmh1bnRlfj5keQ==", "hunter2"),
        Err(VaultError::Encoding)
    );
}

#[test]
fn record_with_short_salt_is_an_invalid_salt_error() {
    assert_eq!(
        check_password_record(b"AAAAAAAAAAAAAAA=:aHVudGVyMmh1bnRlfj5keQ==", "hunter2"),
        Err(VaultError::InvalidSalt)
    );
    assert_eq!(
        check_password_record(b":aHVudGVyMmh1bnRlfj5keQ==", "hunter2"),
        Err(VaultError::InvalidSalt)
    );
}

#[test]
fn invalid_salt_is_reported_before_a_bad_verifier() {
    assert_eq!(
        check_password_record(b"AAAAAAAAAAAAAAA=:!!!!", "hunter2"),
        Err(VaultError::InvalidSalt)
    );
}

#[test]
fn record_with_bad_verifier_text_is_an_encoding_error() {
    assert_eq!(
        check_password_record(b"AAECAwQFBgcICQoL:!!!!", "hunter2"),
        Err(VaultError::Encoding)
    );
}

#[test]
fn record_with_short_verifier_does_not_verify() {
    assert_eq!(
        check_password_record(b"AAECAwQFBgcICQoL:aHVudGVyMmh1bnRlfj5k", "hunter2"),
        Ok(false)
    );
    assert_eq!(check_password_record(b"AAECAwQFBgcICQoL:", "hunter2"), Ok(false));
}

#[test]
fn find_separator_cases() {
    assert_eq!(find_separator(b""), None);
    assert_eq!(find_separator(b"abc"), None);
    assert_eq!(find_separator(b":"), Some(0));
    assert_eq!(find_separator(b"ab:cd"), Some(2));
    assert_eq!(find_separator(b"ab:"), Some(2));
    assert_eq!(find_separator(b"a:b:c"), None);
    assert_eq!(find_separator(b"::"), None);
}

#[test]
fn bytes_equal_cases() {
    assert!(bytes_equal(b"", b""));
    assert!(bytes_equal(b"abc", b"abc"));
    assert!(!bytes_equal(b"abc", b"abd"));
    assert!(!bytes_equal(b"abc", b"ab"));
    assert!(!bytes_equal(b"", b"a"));
}

#[test]
fn password_lifecycle() {
    let mut store = CredentialStore::unconfigured();
    assert!(!store.has_password());
    assert_eq!(store.verify_password("correct"), Err(VaultError::NotConfigured));
    store.setup_password("correct");
    assert!(store.has_password());
    assert_eq!(store.verify_password("correct"), Ok(true));
    assert_eq!(store.verify_password("wrong"), Ok(false));
}

#[test]
fn example_hunter2() {
    let mut store = CredentialStore::unconfigured();
    store.setup_password("hunter2");
    assert_eq!(store.verify_password("hunter2"), Ok(true));
    assert_eq!(store.verify_password("wrong"), Ok(false));
}

#[test]
fn store_from_file_content() {
    let store = CredentialStore::new(Some(
        b"AAECAwQFBgcICQoL:aHVudGVyMmh1bnRlfj5keQ==".to_vec(),
    ));
    assert!(store.has_password());
    assert_eq!(store.verify_password("hunter2"), Ok(true));
    let absent = CredentialStore::new(None);
    assert!(!absent.has_password());
    assert_eq!(absent.verify_password("hunter2"), Err(VaultError::NotConfigured));
}

#[test]
fn setup_with_salt_stores_exact_record() {
    let mut store = CredentialStore::unconfigured();
    store.setup_password_with_salt("hunter2", &counting_salt());
    assert_eq!(
        store.record,
        Some(b"AAECAwQFBgcICQoL:aHVudGVyMmh1bnRlfj5keQ==".to_vec())
    );
}

#[test]
fn setup_overwrites_an_existing_record() {
    let mut store = CredentialStore::unconfigured();
    store.setup_password("first");
    store.setup_password("second");
    assert_eq!(store.verify_password("first"), Ok(false));
    assert_eq!(store.verify_password("second"), Ok(true));
}

#[test]
fn setup_draws_a_fresh_salt_each_time() {
    let mut a = CredentialStore::unconfigured();
    let mut b = CredentialStore::unconfigured();
    a.setup_password("same");
    b.setup_password("same");
    assert_ne!(a.record, b.record);
}

#[test]
fn change_with_wrong_old_password_leaves_record_unchanged() {
    let mut store = CredentialStore::unconfigured();
    store.setup_password("old");
    let before = store.record.clone();
    assert_eq!(store.change_password("not old", "new"), Err(VaultError::WrongPassword));
    assert_eq!(store.record, before);
    assert_eq!(store.verify_password("old"), Ok(true));
    assert_eq!(store.verify_password("new"), Ok(false));
}

#[test]
fn change_with_right_old_password_replaces_record() {
    let mut store = CredentialStore::unconfigured();
    store.setup_password("old");
    let before = store.record.clone();
    assert_eq!(store.change_password("old", "new"), Ok(()));
    assert_ne!(store.record, before);
    assert_eq!(store.verify_password("old"), Ok(false));
    assert_eq!(store.verify_password("new"), Ok(true));
}

#[test]
fn change_with_salt_stores_exact_record() {
    let mut store = CredentialStore::unconfigured();
    store.setup_password("old");
    assert_eq!(
        store.change_password_with_salt("old", "hunter2", &counting_salt()),
        Ok(())
    );
    assert_eq!(
        store.record,
        Some(b"AAECAwQFBgcICQoL:aHVudGVyMmh1bnRlfj5keQ==".to_vec())
    );
    assert_eq!(
        store.change_password_with_salt("old", "x", &counting_salt()),
        Err(VaultError::WrongPassword)
    );
}

#[test]
fn change_without_a_password_is_not_configured() {
    let mut store = CredentialStore::unconfigured();
    assert_eq!(store.change_password("old", "new"), Err(VaultError::NotConfigured));
    assert!(!store.has_password());
}

#[test]
fn change_on_a_corrupted_record_reports_it_and_keeps_it() {
    let mut store = CredentialStore::new(Some(b"no separator".to_vec()));
    assert_eq!(store.change_password("old", "new"), Err(VaultError::CorruptedRecord));
    assert_eq!(store.record, Some(b"no separator".to_vec()));
}

#[test]
fn change_to_the_same_password_still_verifies_it() {
    let mut store = CredentialStore::unconfigured();
    store.setup_password("same");
    assert_eq!(store.change_password("same", "same"), Ok(()));
    assert_eq!(store.verify_password("same"), Ok(true));
}

#[test]
fn repeated_password_is_alike() {
    let mut store = CredentialStore::unconfigured();
    store.setup_password("ab");
    assert_eq!(store.verify_password("abab"), Ok(true));
    assert_eq!(store.verify_password("aba"), Ok(false));
}

#[test]
fn passwords_sharing_sixteen_bytes_are_alike() {
    let mut store = CredentialStore::unconfigured();
    store.setup_password("0123456789abcdef-first");
    assert_eq!(store.verify_password("0123456789abcdef-second"), Ok(true));
    assert_eq!(store.verify_password("0123456789abcdeX-first"), Ok(false));
}

#[test]
fn password_file_name() {
    assert_eq!(PASSWORD_FILE, "password_hash.bin");
}

#[test]
fn decoded_fields_are_checked_in_order() {
    let salt: Vec<u8> = (0u8..12).collect();
    let stored: Vec<u8> = b"hunter2hunte~>dy".to_vec();
    assert_eq!(
        check_decoded_fields(Some(salt.clone()), Some(stored.clone()), "hunter2"),
        Ok(true)
    );
    assert_eq!(
        check_decoded_fields(Some(salt.clone()), Some(stored.clone()), "hunter3"),
        Ok(false)
    );
    assert_eq!(
        check_decoded_fields(None, Some(stored.clone()), "hunter2"),
        Err(VaultError::Encoding)
    );
    assert_eq!(check_decoded_fields(None, None, "hunter2"), Err(VaultError::Encoding));
    assert_eq!(
        check_decoded_fields(Some(salt[..11].to_vec()), None, "hunter2"),
        Err(VaultError::InvalidSalt)
    );
    assert_eq!(
        check_decoded_fields(Some(salt.clone()), None, "hunter2"),
        Err(VaultError::Encoding)
    );
    assert_eq!(
        check_decoded_fields(Some(salt), Some(stored[..15].to_vec()), "hunter2"),
        Ok(false)
    );
}

#[test]
fn fixed_time_equal_cases() {
    assert!(fixed_time_equal(b"", b""));
    assert!(fixed_time_equal(b"abc", b"abc"));
    assert!(!fixed_time_equal(b"abc", b"abd"));
    assert!(!fixed_time_equal(b"xbc", b"abc"));
    assert!(!fixed_time_equal(b"abc", b"ab"));
    assert!(!fixed_time_equal(b"", b"a"));
    assert!(!fixed_time_equal(&[0x0f, 0xf0], &[0xf0, 0x0f]));
}
