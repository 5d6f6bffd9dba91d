//! Password hashes and random codes. Hashing is Argon2's and randomness is
//! the `rand` crate's. What is proved here is the shape of a random code
//! and how the answers of the two are turned into results.
use vstd::prelude::*;
use crate::error::{AppError, AppResult};
use crate::text::{is_alphanumeric, join2, starts_with};

verus! {

/// Whether Argon2 accepts the bytes `password` for the hash `stored`, a
/// string in the PHC format. A string that is no such hash accepts nothing.
pub uninterp spec fn argon2_accepts(stored: Seq<char>, password: Seq<u8>) -> bool;

/// The text that stands before Argon2's own words when hashing fails.
pub open spec fn hashing_failure_prefix() -> Seq<char> {
    "Error while hashing password: "@
}

/// `String::push` appends one character.
pub assume_specification[ String::push ](s: &mut String, ch: char)
    ensures
        final(s)@ == old(s)@.push(ch),
;

/// Draws one byte with `rand::Rng::sample` from the distribution
/// `rand::distributions::Alphanumeric`, on the thread's generator.
/// Trusted: the byte is an ASCII letter or digit, as its documentation says.
#[verifier::external_body]
fn random_alphanumeric() -> (b: u8)
    ensures
        is_alphanumeric(b as char),
{
    rand::Rng::sample(&mut rand::thread_rng(), rand::distributions::Alphanumeric)
}

/// Parses `stored` with `argon2::PasswordHash::new` and checks `password`
/// against it with `argon2::PasswordVerifier::verify_password`, under the
/// parameters that the hash itself names.
/// Trusted: the answer is a function of the hash and the password alone.
#[verifier::external_body]
fn argon2_verify(stored: &str, password: &[u8]) -> (r: bool)
    ensures
        r == argon2_accepts(stored@, password@),
{
    match argon2::PasswordHash::new(stored) {
        Ok(parsed) => argon2::PasswordVerifier::verify_password(
            &argon2::Argon2::default(),
            password,
            &parsed,
        ).is_ok(),
        Err(_) => false,
    }
}

/// Hashes `password` with `argon2::PasswordHasher::hash_password`, under
/// Argon2's defaults and a salt that `SaltString::generate` draws from the
/// operating system. An error comes back as its text.
/// Trusted: a hash that comes back accepts the password it was made of: it
/// names the algorithm, version, parameters and salt, and verification
/// computes it again from those. The salt is random: no more is known.
#[verifier::external_body]
fn argon2_hash(password: &[u8]) -> (r: Result<String, String>)
    ensures
        r matches Ok(hash) ==> argon2_accepts(hash@, password@),
{
    let salt = argon2::password_hash::SaltString::generate(&mut rand_core::OsRng);
    match argon2::PasswordHasher::hash_password(&argon2::Argon2::default(), password, &salt) {
        Ok(hash) => Ok(hash.to_string()),
        Err(e) => Err(e.to_string()),
    }
}

/// What hashing makes of Argon2's answer: the hash, or an error that quotes
/// Argon2's words.
pub fn hashed_from(answer: Result<String, String>) -> (r: AppResult<String>)
    ensures
        match answer {
            Ok(hash) => r == Ok::<String, AppError>(hash),
            Err(reason) => r matches Err(AppError::Anyhow(text)) && text@
                == hashing_failure_prefix() + reason@,
        },
        r matches Err(e) ==> (e matches AppError::Anyhow(text) && starts_with(
            text@,
            hashing_failure_prefix(),
        )),
{
    match answer {
        Ok(hash) => Ok(hash),
        Err(reason) => {
            let text = join2("Error while hashing password: ", reason.as_str());
            assert(text@.subrange(0, hashing_failure_prefix().len() as int)
                =~= hashing_failure_prefix());
            Err(AppError::Anyhow(text))
        },
    }
}

/// Hashes a password for storage. The hash that comes back accepts the
/// password, and only Argon2 can tell what else it accepts. Two calls on one
/// password give different hashes, since each draws a salt of its own. A
/// failure quotes Argon2's words.
pub fn hash_password(password: &[u8]) -> (r: AppResult<String>)
    ensures
        r matches Ok(hash) ==> argon2_accepts(hash@, password@),
        r matches Err(e) ==> (e matches AppError::Anyhow(text) && starts_with(
            text@,
            hashing_failure_prefix(),
        )),
{
    hashed_from(argon2_hash(password))
}

/// Whether `hashed` is the password behind the stored hash `input`. The
/// check never fails: a stored string that is no hash matches nothing.
pub fn verify_password(input: &str, hashed: &str) -> (r: AppResult<bool>)
    ensures
        r == Ok::<bool, AppError>(argon2_accepts(input@, vstd::utf8::encode_utf8(hashed@))),
{
    Ok(argon2_verify(input, hashed.as_bytes()))
}

/// A random code of `length` characters, each an ASCII letter or digit.
pub fn random_words(length: usize) -> (r: String)
    ensures
        r@.len() == length,
        forall|i: int| 0 <= i < r@.len() ==> is_alphanumeric(#[trigger] r@[i]),
{
    let mut out = String::new();
    let mut drawn: usize = 0;
    while drawn < length
        invariant
            drawn <= length,
            out@.len() == drawn,
            forall|i: int| 0 <= i < out@.len() ==> is_alphanumeric(#[trigger] out@[i]),
        decreases length - drawn,
    {
        let b = random_alphanumeric();
        out.push(b as char);
        drawn = drawn + 1;
    }
    out
}

} // verus!
