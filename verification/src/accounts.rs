//! The accounts of the service: the file that holds them, and what is decided when
//! a user registers, verifies an account, logs in or asks who they are.
//!
//! The file holds one record per user, each ended by a carriage return:
//! `{subdomain}:{address}:{password hash}`. White space around a record does not
//! count, and a record that begins with a colon, or holds nothing, is passed over.
//! The file is read and written elsewhere; here its text is searched.

use crate::errors::{ErrorKind, ErrorKindView};
use crate::jwt::ApiKey;
use crate::models::{Login, User, UserView, WhoAmI};
use crate::text::{
    find_piece_end, lemma_piece_end_of_rest, piece, piece_end, piece_text, to_chars, trim_range,
    trimmed,
};
use crate::utils::{
    hash_password, alphanumeric, password_matches, validate_email, validate_username,
    verify_password,
};
use vstd::prelude::*;
use vstd::string::*;

verus! {

/// What one record says to a search for `key`: nothing where the search goes on to
/// the next record, else the end of the search.
///
/// A record whose first field is empty is passed over. Any other record needs a
/// second field, and the search ends with the user where either of the two is the
/// key, for which the record needs a third field. A record that lacks a field it
/// needs is `InvalidValue`.
pub open spec fn judge(record: Seq<char>, key: Seq<char>) -> Option<
    Result<UserView, ErrorKindView>,
> {
    let claim = piece(record, ':', 0)->0;
    if claim.len() == 0 {
        None
    } else {
        match piece(record, ':', 1) {
            None => Some(Err(ErrorKindView::InvalidValue)),
            Some(email) => if claim == key || email == key {
                match piece(record, ':', 2) {
                    None => Some(Err(ErrorKindView::InvalidValue)),
                    Some(password) => Some(
                        Ok(UserView { email: email, password: password, subdomain_claim: claim }),
                    ),
                }
            } else {
                None
            },
        }
    }
}

/// The first user in `content` whose subdomain or address is `key`; no user where
/// there is none; `InvalidValue` where a record that lacks a field comes first.
pub open spec fn lookup(content: Seq<char>, key: Seq<char>) -> Result<
    Option<UserView>,
    ErrorKindView,
>
    decreases content.len(),
{
    let end = piece_end(content, '\r', 0);
    match judge(trimmed(content.subrange(0, end)), key) {
        Some(Ok(user)) => Ok(Some(user)),
        Some(Err(e)) => Err(e),
        None => if 0 <= end < content.len() {
            lookup(content.subrange(end + 1, content.len() as int), key)
        } else {
            Ok(None)
        },
    }
}

fn judge_record(record: &Vec<char>, key: &String) -> (r: Option<Result<User, ErrorKind>>)
    ensures
        match judge(record@, key@) {
            None => r is None,
            Some(Ok(user)) => r matches Some(Ok(u)) && u@ == user,
            Some(Err(e)) => r matches Some(Err(x)) && x@ == e,
        },
{
    let claim = match piece_text(record, ':', 0) {
        Some(claim) => claim,
        None => {
            return None;
        },
    };
    if claim.as_str().is_empty() {
        return None;
    }
    let email = match piece_text(record, ':', 1) {
        Some(email) => email,
        None => {
            return Some(Err(ErrorKind::InvalidValue));
        },
    };
    if claim == *key || email == *key {
        match piece_text(record, ':', 2) {
            Some(password) => Some(Ok(User { email, password, subdomain_claim: claim })),
            None => Some(Err(ErrorKind::InvalidValue)),
        }
    } else {
        None
    }
}

fn copy_range(chars: &Vec<char>, from: usize, to: usize) -> (r: Vec<char>)
    requires
        from <= to <= chars.len(),
    ensures
        r@ == chars@.subrange(from as int, to as int),
{
    let mut r: Vec<char> = Vec::new();
    let mut i: usize = from;
    while i < to
        invariant
            from <= i <= to <= chars.len(),
            r@ == chars@.subrange(from as int, i as int),
        decreases to - i,
    {
        r.push(chars[i]);
        i = i + 1;
        assert(r@ =~= chars@.subrange(from as int, i as int));
    }
    r
}

/// Searches the text of the accounts file for the user whose subdomain or address is
/// `key`.
pub fn find_user(content: &str, key: &str) -> (r: Result<Option<User>, ErrorKind>)
    ensures
        match lookup(content@, key@) {
            Ok(Some(user)) => r matches Ok(Some(u)) && u@ == user,
            Ok(None) => r matches Ok(None),
            Err(e) => r matches Err(x) && x@ == e,
        },
{
    let chars = to_chars(content);
    let wanted = String::from_str(key);
    let n: usize = chars.len();
    let mut from: usize = 0;
    assert(chars@.subrange(0, n as int) =~= chars@);
    loop
        invariant
            n == chars.len(),
            chars@ == content@,
            wanted@ == key@,
            from <= n,
            lookup(content@, key@) == lookup(chars@.subrange(from as int, n as int), key@),
        decreases n - from,
    {
        let end = find_piece_end(&chars, '\r', from);
        let (a, b) = trim_range(&chars, from, end);
        let record = copy_range(&chars, a, b);
        proof {
            lemma_piece_end_of_rest(chars@, '\r', from as int);
            let rest = chars@.subrange(from as int, n as int);
            assert(rest.subrange(0, end - from) =~= chars@.subrange(from as int, end as int));
            if end < n {
                assert(rest.subrange(end - from + 1, rest.len() as int) =~= chars@.subrange(
                    end + 1,
                    n as int,
                ));
            }
        }
        match judge_record(&record, &wanted) {
            Some(Ok(user)) => {
                return Ok(Some(user));
            },
            Some(Err(e)) => {
                return Err(e);
            },
            None => {},
        }
        if end == n {
            return Ok(None);
        }
        from = end + 1;
    }
}

/// The user who has claimed a subdomain.
///
/// Fails with `NotFound` where nobody has.
pub fn find_subdomain_claim(content: &str, subdomain_claim: &String) -> (r: Result<
    Option<User>,
    ErrorKind,
>)
    ensures
        match lookup(content@, subdomain_claim@) {
            Ok(Some(user)) => r matches Ok(Some(u)) && u@ == user,
            Ok(None) => r matches Err(x) && x@ == ErrorKindView::NotFound,
            Err(e) => r matches Err(x) && x@ == e,
        },
{
    match find_user(content, subdomain_claim.as_str()) {
        Ok(Some(user)) => Ok(Some(user)),
        Ok(None) => Err(ErrorKind::NotFound),
        Err(e) => Err(e),
    }
}

/// The record of a user as the accounts file holds it.
pub open spec fn user_line(claim: Seq<char>, email: Seq<char>, hash: Seq<char>) -> Seq<char> {
    claim + ":"@ + email + ":"@ + hash + "\r"@
}

/// Whether a user may register, in the order in which it is decided: the subdomain
/// must be free, then the address; then the subdomain must be a valid name, then the
/// address a valid address.
pub open spec fn registration_check(content: Seq<char>, user: UserView) -> Result<
    (),
    ErrorKindView,
> {
    match lookup(content, user.subdomain_claim) {
        Err(e) => Err(e),
        Ok(Some(_)) => Err(ErrorKindView::UsernameAlreadyExists),
        Ok(None) => match lookup(content, user.email) {
            Err(e) => Err(e),
            Ok(Some(_)) => Err(ErrorKindView::EmailAlreadyExists),
            Ok(None) => if !(forall|i: int|
                0 <= i < user.subdomain_claim.len() ==> alphanumeric(
                    #[trigger] user.subdomain_claim[i],
                )) {
                Err(ErrorKindView::InvalidValue)
            } else if !user.email.contains('@') {
                Err(ErrorKindView::InvalidValue)
            } else {
                Ok(())
            },
        },
    }
}

/// Decides whether `user` may register.
pub fn check_registration(content: &str, user: &User) -> (r: Result<(), ErrorKind>)
    ensures
        match registration_check(content@, user@) {
            Ok(_) => r is Ok,
            Err(e) => r matches Err(x) && x@ == e,
        },
{
    match find_user(content, user.subdomain_claim.as_str()) {
        Err(e) => {
            return Err(e);
        },
        Ok(Some(_)) => {
            return Err(ErrorKind::UsernameAlreadyExists);
        },
        Ok(None) => {},
    }
    match find_user(content, user.email.as_str()) {
        Err(e) => {
            return Err(e);
        },
        Ok(Some(_)) => {
            return Err(ErrorKind::EmailAlreadyExists);
        },
        Ok(None) => {},
    }
    if !validate_username(&user.subdomain_claim) {
        return Err(ErrorKind::InvalidValue);
    }
    if !validate_email(&user.email) {
        return Err(ErrorKind::InvalidValue);
    }
    Ok(())
}

/// The record that the accounts file gets for a user, once the password is hashed.
pub fn registration_line(user: &User, hash: &String) -> (line: String)
    ensures
        line@ == user_line(user.subdomain_claim@, user.email@, hash@),
{
    let mut line = user.subdomain_claim.clone();
    line.append(":");
    line.append(user.email.as_str());
    line.append(":");
    line.append(hash.as_str());
    line.append("\r");
    line
}

/// Registers a user: decides whether they may, hashes the password and gives the record
/// that the accounts file gets once the address is verified. The password of the
/// user verifies against the hash in the record.
///
/// Fails as `registration_check` says, and with `Error` where the password cannot be
/// hashed.
pub fn register(content: &str, user: &User) -> (r: Result<String, ErrorKind>)
    ensures
        match registration_check(content@, user@) {
            Err(e) => r matches Err(x) && x@ == e,
            Ok(_) => match r {
                Ok(line) => exists|hash: Seq<char>|
                    #[trigger] password_matches(user.password@, hash) == Some(true) && line@
                        == user_line(user.subdomain_claim@, user.email@, hash),
                Err(e) => e@ is Error,
            },
        },
{
    match check_registration(content, user) {
        Err(e) => Err(e),
        Ok(_) => match hash_password(&user.password) {
            Err(e) => Err(e),
            Ok(hash) => Ok(registration_line(user, &hash)),
        },
    }
}

/// What a login comes to once the account is found: the address to issue a token for
/// where the password matched, `WrongPassword` where it did not, and the error of
/// the comparison where it failed.
pub fn password_verdict(email: &String, matched: Result<bool, ErrorKind>) -> (r: Result<
    String,
    ErrorKind,
>)
    ensures
        match matched {
            Ok(true) => r matches Ok(s) && s@ == email@,
            Ok(false) => r matches Err(e) && e@ == ErrorKindView::WrongPassword,
            Err(e) => r == Err::<String, ErrorKind>(e),
        },
{
    match matched {
        Ok(true) => Ok(email.clone()),
        Ok(false) => Err(ErrorKind::WrongPassword),
        Err(e) => Err(e),
    }
}

/// What a login comes to.
pub open spec fn login_check(content: Seq<char>, email: Seq<char>, password: Seq<char>)
    -> Result<Seq<char>, ErrorKindView> {
    match lookup(content, email) {
        Err(e) => Err(e),
        Ok(None) => Err(ErrorKindView::NotFound),
        Ok(Some(user)) => match password_matches(password, user.password) {
            Some(true) => Ok(email),
            Some(false) => Err(ErrorKindView::WrongPassword),
            None => Err(ErrorKindView::Error(Seq::empty())),
        },
    }
}

/// Logs a user in: finds the account by the address and compares the password with
/// the hash it holds. Gives the address to issue a token for.
///
/// Fails with `NotFound` where there is no such account, with `WrongPassword` where
/// the password does not match, and with `Error` where the hash cannot be read.
pub fn auth(content: &str, login: &Login) -> (r: Result<String, ErrorKind>)
    ensures
        match login_check(content@, login.email@, login.password@) {
            Ok(email) => r matches Ok(s) && s@ == email,
            Err(ErrorKindView::Error(_)) => r matches Err(x) && x@ is Error,
            Err(e) => r matches Err(x) && x@ == e,
        },
{
    match find_user(content, login.email.as_str()) {
        Err(e) => Err(e),
        Ok(None) => Err(ErrorKind::NotFound),
        Ok(Some(user)) => password_verdict(
            &login.email,
            verify_password(login.password.as_str(), user.password.as_str()),
        ),
    }
}

/// Tells the user whom a token names who they are.
///
/// Fails with `NotFound` where the token names nobody.
pub fn whoami(content: &str, key: &ApiKey) -> (r: Result<WhoAmI, ErrorKind>)
    ensures
        match lookup(content@, key.0@) {
            Ok(Some(user)) => r matches Ok(w) && w.email@ == user.email && w.subdomain_claim@
                == user.subdomain_claim,
            Ok(None) => r matches Err(x) && x@ == ErrorKindView::NotFound,
            Err(e) => r matches Err(x) && x@ == e,
        },
{
    match find_user(content, key.0.as_str()) {
        Ok(Some(user)) => Ok(WhoAmI { email: user.email, subdomain_claim: user.subdomain_claim }),
        Ok(None) => Err(ErrorKind::NotFound),
        Err(e) => Err(e),
    }
}

/// Whether the record that a verification token carries may be added to the
/// accounts: it needs an address, its second field, and the address must be free.
pub open spec fn verification_check(content: Seq<char>, line: Seq<char>) -> Result<
    (),
    ErrorKindView,
> {
    match piece(line, ':', 1) {
        None => Err(ErrorKindView::InvalidValue),
        Some(email) => match lookup(content, email) {
            Err(e) => Err(e),
            Ok(Some(_)) => Err(ErrorKindView::EmailAlreadyExists),
            Ok(None) => Ok(()),
        },
    }
}

/// Decides whether the record that a verification token carries is added to the
/// accounts file.
pub fn verify_account(content: &str, line: &str) -> (r: Result<(), ErrorKind>)
    ensures
        match verification_check(content@, line@) {
            Ok(_) => r is Ok,
            Err(e) => r matches Err(x) && x@ == e,
        },
{
    let chars = to_chars(line);
    match piece_text(&chars, ':', 1) {
        None => Err(ErrorKind::InvalidValue),
        Some(email) => match find_user(content, email.as_str()) {
            Err(e) => Err(e),
            Ok(Some(_)) => Err(ErrorKind::EmailAlreadyExists),
            Ok(None) => Ok(()),
        },
    }
}

} // verus!
