//! Password hashing with Argon2id.
//!
//! A password is stored as a PHC string: it names the algorithm and carries
//! the parameters and the salt, so checking a password needs nothing but the
//! stored string.

use vstd::prelude::*;
use argon2::password_hash::rand_core::OsRng;
use argon2::password_hash::{PasswordHash, PasswordHasher, PasswordVerifier, SaltString};
use argon2::Argon2;
use crate::repository::error::Error;
use crate::util::phc::{claims_wide_parallelism, parallelism_in_range};

verus! {

/// The PHC string that Argon2id, with its default parameters, makes of a
/// password and a salt in B64 text, or `None` where it rejects the pair.
pub uninterp spec fn argon2_phc(password: Seq<char>, salt: Seq<char>) -> Option<Seq<char>>;

/// Whether Argon2 finds that a password matches a PHC string, or `None` where
/// the string does not parse as one.
pub uninterp spec fn argon2_verdict(password: Seq<char>, hash: Seq<char>) -> Option<bool>;

/// Whether a text begins with `$`, the separator of the fields of a PHC
/// string.
pub open spec fn starts_with_separator(text: Seq<char>) -> bool {
    text.len() > 0 && text[0] == '$'
}

/// Hashes with `Argon2::default().hash_password`, after `SaltString::from_b64`
/// has read the salt, and renders the result as a PHC string.
///
/// Believed without proof: the result is a function of the password and the
/// salt text alone, and `None` stands for an error of either call. A string
/// that comes back begins with the separator `$`, as every PHC string does,
/// names the default parallelism of one lane and holds `p=` nowhere else,
/// parses as a PHC string, so that there is a verdict on every password, and
/// is one that Argon2 matches with the same password, as the crate's own
/// usage example shows.
#[verifier::external_body]
fn phc_hash(password: &str, salt: &str) -> (r: Option<String>)
    ensures
        match r {
            Some(h) => {
                &&& argon2_phc(password@, salt@) == Some(h@)
                &&& argon2_verdict(password@, h@) == Some(true)
                &&& starts_with_separator(h@)
                &&& !claims_wide_parallelism(h@)
                &&& forall|other: Seq<char>| (#[trigger] argon2_verdict(other, h@)) is Some
            },
            None => argon2_phc(password@, salt@) is None,
        },
{
    let salt = SaltString::from_b64(salt).ok()?;
    let hash = Argon2::default().hash_password(password.as_bytes(), &salt).ok()?;
    Some(hash.to_string())
}

/// Checks with `Argon2::default().verify_password`, after `PasswordHash::new`
/// has parsed the stored string.
///
/// Believed without proof: the result is a function of the password and the
/// stored string alone, and `None` stands for a string that does not parse.
/// Every failure of the check itself counts as a mismatch. A string that
/// claims a parallelism above the greatest that Argon2 takes is left out:
/// Argon2 multiplies the claim before it tests it, and the product can leave
/// the range of its type.
#[verifier::external_body]
fn phc_verify(password: &str, hash: &str) -> (r: Option<bool>)
    requires
        !claims_wide_parallelism(hash@),
    ensures
        r == argon2_verdict(password@, hash@),
{
    let parsed = PasswordHash::new(hash).ok()?;
    Some(Argon2::default().verify_password(password.as_bytes(), &parsed).is_ok())
}

/// Whether a character belongs to the alphabet of Base64: a letter of
/// either case, a digit, `+` or `/`.
pub open spec fn is_b64_char(c: char) -> bool {
    ('A' <= c <= 'Z') || ('a' <= c <= 'z') || ('0' <= c <= '9') || c == '+' || c == '/'
}

/// Whether a text has the shape of a salt of sixteen bytes in unpadded
/// Base64: twenty-two characters of the alphabet.
pub open spec fn is_fresh_salt(text: Seq<char>) -> bool {
    text.len() == 22 && forall|i: int| 0 <= i < text.len() ==> is_b64_char(#[trigger] text[i])
}

/// Draws a salt with `SaltString::generate` from the operating system's
/// random source and returns its B64 text.
///
/// Believed without proof: the text is sixteen random bytes in unpadded
/// Base64, so twenty-two characters of that alphabet. Which ones is left
/// open.
#[verifier::external_body]
fn random_salt() -> (salt: String)
    ensures
        is_fresh_salt(salt@),
{
    SaltString::generate(&mut OsRng).as_str().to_owned()
}

/// The salt to hash with: the configured one if there is one, else a random
/// one of sixteen bytes in unpadded Base64.
pub fn salt_or_random(configured: Option<String>) -> (salt: String)
    ensures
        configured matches Some(s) ==> salt@ == s@,
        configured is None ==> is_fresh_salt(salt@),
{
    match configured {
        Some(s) => s,
        None => random_salt(),
    }
}

/// What [`hash_password`] returns, given what Argon2 made of the input.
pub open spec fn hashed(phc: Option<Seq<char>>) -> Result<Seq<char>, Error> {
    match phc {
        Some(h) => Ok(h),
        None => Err(Error::HashingFailed),
    }
}

/// What a `Result` of a string holds.
pub open spec fn text_of(r: Result<String, Error>) -> Result<Seq<char>, Error> {
    match r {
        Ok(s) => Ok(s@),
        Err(e) => Err(e),
    }
}

/// Hashes a password with the given salt into a PHC string.
///
/// Fails with `HashingFailed` exactly where Argon2 rejects the salt or the
/// password. A hash that is returned is well formed, so that checking any
/// password against it gives a verdict and never `CorruptCredential`; it
/// matches the password it was made from, begins with `$`, and so differs
/// from every password that does not.
pub fn hash_password(password: &str, salt: &str) -> (r: Result<String, Error>)
    ensures
        text_of(r) == hashed(argon2_phc(password@, salt@)),
        r matches Ok(h) ==> verification(password@, h@) == Ok::<bool, Error>(true),
        r matches Ok(h) ==> forall|other: Seq<char>| (#[trigger] verification(other, h@)) is Ok,
        r matches Ok(h) ==> starts_with_separator(h@),
        r matches Ok(h) ==> !starts_with_separator(password@) ==> h@ != password@,
{
    match phc_hash(password, salt) {
        Some(h) => Ok(h),
        None => Err(Error::HashingFailed),
    }
}

/// What a verdict of Argon2 amounts to: a match, a mismatch, or
/// `CorruptCredential` where there is no verdict.
pub open spec fn verified(verdict: Option<bool>) -> Result<bool, Error> {
    match verdict {
        Some(matches) => Ok(matches),
        None => Err(Error::CorruptCredential),
    }
}

/// What checking `password` against the stored string `hash` returns:
/// `CorruptCredential` where the string claims a parallelism above the
/// greatest that Argon2 takes or does not parse as a PHC string, and else
/// Argon2's verdict.
pub open spec fn verification(password: Seq<char>, hash: Seq<char>) -> Result<bool, Error> {
    if claims_wide_parallelism(hash) {
        Err(Error::CorruptCredential)
    } else {
        verified(argon2_verdict(password, hash))
    }
}

/// Checks a password against a stored PHC string.
///
/// A password that does not match is `Ok(false)`, never an error; the only
/// error is `CorruptCredential`, for a stored string that is not a PHC
/// string or claims a parallelism above the greatest that Argon2 takes.
pub fn verify_password(password: &str, hash: &str) -> (r: Result<bool, Error>)
    ensures
        r == verification(password@, hash@),
{
    if !parallelism_in_range(hash) {
        return Err(Error::CorruptCredential);
    }
    match phc_verify(password, hash) {
        Some(matches) => Ok(matches),
        None => Err(Error::CorruptCredential),
    }
}

} // verus!
