use todo_lists::model::User;
use todo_lists::repository::error::Error;
use todo_lists::util::password_hash::{hash_password, salt_or_random, verify_password};
use todo_lists::util::phc::{chars_of, number_is_wide, parallelism_in_range};

const SALT: &str = "YWJjZGVmZ2hpamtsbW5v";

#[test]
fn hash_is_a_phc_string_and_not_the_password() {
    let hash = hash_password("hunter42", SALT).unwrap();
    assert_ne!(hash, "hunter42");
    assert!(hash.starts_with("$argon2id$v=19$m=19456,t=2,p=1$YWJjZGVmZ2hpamtsbW5v$"));
}

#[test]
fn hash_is_the_same_for_the_same_salt() {
    let first = hash_password("hunter42", SALT).unwrap();
    let second = hash_password("hunter42", SALT).unwrap();
    assert_eq!(first, second);
}

#[test]
fn hash_differs_with_the_salt() {
    let first = hash_password("hunter42", SALT).unwrap();
    let second = hash_password("hunter42", "MTIzNDU2Nzg5MDEyMzQ1").unwrap();
    assert_ne!(first, second);
}

#[test]
fn verify_accepts_the_password_that_was_hashed() {
    let hash = hash_password("pw1", SALT).unwrap();
    assert_eq!(verify_password("pw1", &hash), Ok(true));
}

#[test]
fn verify_rejects_another_password() {
    let hash = hash_password("pw2", SALT).unwrap();
    assert_eq!(verify_password("pw1", &hash), Ok(false));
}

#[test]
fn verify_reports_a_malformed_hash_as_corrupt() {
    assert_eq!(verify_password("pw1", "not a hash"), Err(Error::CorruptCredential));
    assert_eq!(verify_password("pw1", ""), Err(Error::CorruptCredential));
}

#[test]
fn hash_fails_on_a_salt_that_is_not_b64() {
    assert_eq!(hash_password("pw1", "!!not b64!!"), Err(Error::HashingFailed));
}

#[test]
fn hash_fails_on_a_salt_that_is_too_short() {
    assert_eq!(hash_password("pw1", "YWJj"), Err(Error::HashingFailed));
}

#[test]
fn configured_salt_is_kept() {
    assert_eq!(salt_or_random(Some(SALT.to_string())), SALT);
}

#[test]
fn random_salt_is_accepted_by_the_hasher() {
    let salt = salt_or_random(None);
    assert_eq!(salt.len(), 22);
    let hash = hash_password("pw1", &salt).unwrap();
    assert_eq!(verify_password("pw1", &hash), Ok(true));
}

#[test]
fn random_salts_differ() {
    assert_ne!(salt_or_random(None), salt_or_random(None));
}

#[test]
fn new_user_holds_a_hash_of_the_password() {
    let user = User::new("alice".to_string(), "pw1".to_string(), SALT).unwrap();
    assert_eq!(user.username, "alice");
    assert_ne!(user.password_hash, "pw1");
    assert_eq!(user.password_hash, hash_password("pw1", SALT).unwrap());
    assert_eq!(user.verify_password("pw1"), Ok(true));
    assert_eq!(user.verify_password("pw2"), Ok(false));
}

#[test]
fn new_user_fails_on_a_bad_salt() {
    let r = User::new("alice".to_string(), "pw1".to_string(), "?");
    assert_eq!(r, Err(Error::HashingFailed));
}

#[test]
fn new_users_get_distinct_identifiers() {
    let a = User::new("alice".to_string(), "pw1".to_string(), SALT).unwrap();
    let b = User::new("alice".to_string(), "pw1".to_string(), SALT).unwrap();
    assert_ne!(a.id, b.id);
}

#[test]
fn user_with_a_corrupt_hash_cannot_be_verified() {
    let user = User { id: 1, username: "alice".to_string(), password_hash: "x".to_string() };
    assert_eq!(user.verify_password("pw1"), Err(Error::CorruptCredential));
}

#[test]
fn exposed_user_has_no_hash() {
    let user = User { id: 7, username: "alice".to_string(), password_hash: "$h".to_string() };
    let exposed = user.exposed();
    assert_eq!(exposed, User { id: 7, username: "alice".to_string(), password_hash: String::new() });
}

#[test]
fn admission_follows_the_verdict() {
    let user = User { id: 7, username: "alice".to_string(), password_hash: "$h".to_string() };
    assert_eq!(user.clone().authenticated(Ok(true)), Ok(user.clone()));
    assert_eq!(user.clone().authenticated(Ok(false)), Err(Error::InvalidCredentials));
    assert_eq!(
        user.clone().authenticated(Err(Error::CorruptCredential)),
        Err(Error::CorruptCredential)
    );
}

#[test]
fn random_salt_is_unpadded_b64_of_sixteen_bytes() {
    let salt = salt_or_random(None);
    assert_eq!(salt.chars().count(), 22);
    assert!(salt.chars().all(|c| c.is_ascii_alphanumeric() || c == '+' || c == '/'));
}

#[test]
fn returned_hash_gives_a_verdict_on_every_password() {
    let hash = hash_password("pw1", SALT).unwrap();
    assert_eq!(verify_password("", &hash), Ok(false));
    assert_eq!(verify_password(&hash, &hash), Ok(false));
    assert_eq!(verify_password("$argon2id$", &hash), Ok(false));
    assert_eq!(verify_password("pw1", &hash), Ok(true));
}

const OUTPUT: &str = "AAAAAAAAAAAAAAAAAAAAAAAAAAAAAAAAAAAAAAAAAAA";

fn stored(params: &str) -> String {
    format!("$argon2id$v=19${}$c2FsdHNhbHQ${}", params, OUTPUT)
}

#[test]
fn hash_claiming_a_huge_parallelism_is_corrupt() {
    let hash = stored("m=8,t=1,p=536870912");
    assert_eq!(verify_password("pw1", &hash), Err(Error::CorruptCredential));
    let hash = stored("m=8,t=1,p=4294967295");
    assert_eq!(verify_password("pw1", &hash), Err(Error::CorruptCredential));
    let hash = stored("m=8,t=1,p=99999999999999999999999999");
    assert_eq!(verify_password("pw1", &hash), Err(Error::CorruptCredential));
}

#[test]
fn parallelism_is_admitted_up_to_the_greatest_argon2_takes() {
    assert_eq!(verify_password("pw1", &stored("m=8,t=1,p=16777216")), Err(Error::CorruptCredential));
    assert_eq!(verify_password("pw1", &stored("m=8,t=1,p=16777215")), Ok(false));
    assert_eq!(verify_password("pw1", &stored("m=8,t=1,p=1")), Ok(false));
}

#[test]
fn user_with_a_hash_of_huge_parallelism_cannot_be_verified() {
    let user = User {
        id: 1,
        username: "alice".to_string(),
        password_hash: stored("m=8,t=1,p=536870912"),
    };
    assert_eq!(user.verify_password("pw1"), Err(Error::CorruptCredential));
}

#[test]
fn own_hashes_claim_one_lane() {
    let hash = hash_password("p=99999999", "cD05OTk5OTk5OQ").unwrap();
    assert!(parallelism_in_range(&hash));
    assert_eq!(verify_password("p=99999999", &hash), Ok(true));
}

#[test]
fn parallelism_is_read_wherever_it_is_claimed() {
    assert!(parallelism_in_range(""));
    assert!(parallelism_in_range("p"));
    assert!(parallelism_in_range("p="));
    assert!(parallelism_in_range("p=1"));
    assert!(parallelism_in_range("p=16777215"));
    assert!(!parallelism_in_range("p=16777216"));
    assert!(!parallelism_in_range("p=0016777216"));
    assert!(parallelism_in_range("p=0000000000000000000001"));
    assert!(parallelism_in_range("p=16777215,"));
    assert!(!parallelism_in_range("p=1,p=99999999"));
    assert!(!parallelism_in_range("p=p=99999999"));
    assert!(!parallelism_in_range("xp=99999999$"));
    assert!(parallelism_in_range("m=99999999,t=99999999"));
    assert!(parallelism_in_range("p =99999999"));
    assert!(parallelism_in_range("p=-99999999"));
    assert!(!parallelism_in_range("\u{e9}p=99999999\u{e9}"));
}

#[test]
fn digits_are_read_as_far_as_they_go() {
    let text = chars_of("a16777216b16777215");
    assert_eq!(text.len(), 18);
    assert_eq!(text[0], 'a');
    assert!(number_is_wide(&text, 1));
    assert!(!number_is_wide(&text, 2));
    assert!(!number_is_wide(&text, 10));
    assert!(!number_is_wide(&text, 9));
    assert!(!number_is_wide(&text, 18));
    assert_eq!(chars_of("h\u{e9}"), vec!['h', '\u{e9}']);
}
