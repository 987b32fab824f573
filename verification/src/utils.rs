//! Checks on what a user registers with, password hashing, and the text of the mail
//! that verifies an account.

use crate::config::Config;
use crate::errors::ErrorKind;
use crate::text::{contains_char, to_chars};
use vstd::prelude::*;
use vstd::string::*;

verus! {

/// Whether `c` is a letter or a number, as `char::is_alphanumeric` of the standard
/// library finds it: by the Unicode properties Alphabetic and Numeric.
pub uninterp spec fn alphanumeric(c: char) -> bool;

/// `char::is_alphanumeric` of the standard library. Its answer depends on the
/// character alone, and is given the name `alphanumeric`; nothing else is claimed.
pub assume_specification[ char::is_alphanumeric ](c: char) -> (b: bool)
    ensures
        b == alphanumeric(c),
;

/// A name is valid where every character of it is a letter or a number. The empty
/// name is valid.
pub fn validate_username(s: &String) -> (b: bool)
    ensures
        b == forall|i: int| 0 <= i < s@.len() ==> alphanumeric(#[trigger] s@[i]),
{
    let chars = to_chars(s.as_str());
    let n: usize = chars.len();
    let mut i: usize = 0;
    while i < n
        invariant
            n == chars.len(),
            chars@ == s@,
            i <= n,
            forall|j: int| 0 <= j < i ==> alphanumeric(#[trigger] s@[j]),
        decreases n - i,
    {
        if !chars[i].is_alphanumeric() {
            return false;
        }
        i = i + 1;
    }
    true
}

/// An address is valid where it holds an `@`.
pub fn validate_email(s: &String) -> (b: bool)
    ensures
        b == s@.contains('@'),
{
    contains_char(s.as_str(), '@')
}

/// The error of the `bcrypt` crate.
#[verifier::external_type_specification]
#[verifier::external_body]
pub struct ExBcryptError(bcrypt::BcryptError);

/// What `bcrypt::verify` answers for a password and a hash: whether the password is
/// the one that the hash was made from, or nothing where the hash cannot be read.
pub uninterp spec fn password_matches(password: Seq<char>, hash: Seq<char>) -> Option<bool>;

/// `bcrypt::verify`. It reads the cost and the salt out of the hash, hashes the
/// password with them and compares; the answer depends on the two texts alone, and is
/// given the name `password_matches`.
#[verifier::external_body]
fn bcrypt_verify(password: &str, hash: &str) -> (r: Result<bool, bcrypt::BcryptError>)
    ensures
        match r {
            Ok(b) => password_matches(password@, hash@) == Some(b),
            Err(_) => password_matches(password@, hash@) is None,
        },
{
    bcrypt::verify(password, hash)
}

/// `bcrypt::hash` at the cost that the crate calls its default. The salt is drawn at
/// random, so two hashes of one password differ and the call fails where the system
/// gives no random bytes. What is claimed of a hash is what it is made for: the
/// password verifies against it.
#[verifier::external_body]
fn bcrypt_hash(password: &str) -> (r: Result<String, bcrypt::BcryptError>)
    ensures
        r matches Ok(h) ==> password_matches(password@, h@) == Some(true),
{
    bcrypt::hash(password, bcrypt::DEFAULT_COST)
}

/// The message of an error of `bcrypt`. Nothing is claimed of it.
#[verifier::external_body]
fn bcrypt_error_text(e: &bcrypt::BcryptError) -> (r: String) {
    format!("{}", e)
}

/// What becomes of the result of a call into `bcrypt`: its value, or its error as one
/// of the library's.
pub fn hashing_result<T>(r: Result<T, bcrypt::BcryptError>) -> (out: Result<T, ErrorKind>)
    ensures
        match r {
            Ok(v) => out == Ok::<T, ErrorKind>(v),
            Err(_) => out matches Err(e) && e@ is Error,
        },
{
    match r {
        Ok(v) => Ok(v),
        Err(e) => Err(ErrorKind::Error(bcrypt_error_text(&e))),
    }
}

/// Hashes a password with a fresh salt. The password verifies against the hash.
///
/// Fails with `Error` where the system gives no random bytes for the salt.
pub fn hash_password(s: &String) -> (r: Result<String, ErrorKind>)
    ensures
        match r {
            Ok(h) => password_matches(s@, h@) == Some(true),
            Err(e) => e@ is Error,
        },
{
    hashing_result(bcrypt_hash(s.as_str()))
}

/// Whether `password` is the one that `hash` was made from.
///
/// Fails with `Error` where `hash` is not a hash that can be read.
pub fn verify_password(password: &str, hash: &str) -> (r: Result<bool, ErrorKind>)
    ensures
        match password_matches(password@, hash@) {
            Some(b) => r == Ok::<bool, ErrorKind>(b),
            None => r matches Err(e) && e@ is Error,
        },
{
    hashing_result(bcrypt_verify(password, hash))
}

/// A mail, ready to be handed to the mail server.
#[derive(Debug, Clone, PartialEq, Eq)]
pub struct Mail {
    pub from: String,
    pub to: String,
    pub subject: String,
    pub body: String,
}

/// The address at which an account is verified with `token`.
pub open spec fn verification_url(base_url: Seq<char>, token: Seq<char>) -> Seq<char> {
    base_url + "/api/verify?token="@ + token
}

/// The mail that asks a new user to verify their account: from the name and address
/// of the service, with the link that carries `token`.
pub fn verification_email(config: &Config, to: &String, token: &String) -> (mail: Mail)
    ensures
        mail.from@ == config.smtp_from_name@ + " <"@ + config.smtp_from_email@ + ">"@,
        mail.to@ == to@,
        mail.subject@ == "Verifikasi FloyDNS"@,
        mail.body@ == "Klik link berikut untuk memverifikasikan akun FloyDNS-mu:    "@
            + verification_url(config.base_url@, token@),
{
    let mut from = config.smtp_from_name.clone();
    from.append(" <");
    from.append(config.smtp_from_email.as_str());
    from.append(">");
    let mut body = String::from_str(
        "Klik link berikut untuk memverifikasikan akun FloyDNS-mu:    ",
    );
    body.append(config.base_url.as_str());
    body.append("/api/verify?token=");
    body.append(token.as_str());
    assert(body@ =~= "Klik link berikut untuk memverifikasikan akun FloyDNS-mu:    "@
        + verification_url(config.base_url@, token@));
    Mail { from, to: to.clone(), subject: String::from_str("Verifikasi FloyDNS"), body }
}

} // verus!
