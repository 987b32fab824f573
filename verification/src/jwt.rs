//! What a token carries and how long it is good for.
//!
//! Tokens are signed and read elsewhere; here are the claims that go into one, the
//! test that a token read back is still current, and the reading of the header that
//! carries one.

use crate::errors::{ErrorKind, ErrorKindView, JWTCError};
use crate::text::{
    find, first_occurrence, lemma_first_occurrence_some, text_of, to_chars, trim_range, trimmed,
};
use vstd::prelude::*;
use vstd::string::*;

verus! {

/// The claims of a token: whom it names, when it was issued and when it expires, both
/// in nanoseconds since 1970.
#[derive(Debug, Clone, PartialEq, Eq)]
pub struct Claims {
    pub sub: String,
    pub iat: usize,
    pub exp: usize,
}

/// Whom a request is made for, once its token has been accepted.
#[derive(Debug, Clone, PartialEq, Eq)]
pub struct ApiKey(pub String);

/// For how many days a token is good.
pub const TOKEN_DAYS: i64 = 7;

/// For how many nanoseconds a token is good.
pub open spec fn token_lifetime() -> int {
    TOKEN_DAYS * 86_400_000_000_000
}

/// `chrono::Local::now`, read as nanoseconds since 1970 with `timestamp_nanos_opt`:
/// nothing where the time is too far from 1970 to be counted so. Nothing is claimed
/// of the number: it is the time.
#[verifier::external_body]
fn now_nanos() -> (r: Option<i64>) {
    chrono::Local::now().timestamp_nanos_opt()
}

/// `chrono::Duration::days` and `num_nanoseconds` of the result: a number of days in
/// nanoseconds. A day is 86 400 seconds. The days asked for are few enough for the
/// duration to be in range and for the nanoseconds to fit.
#[verifier::external_body]
fn days_in_nanoseconds(days: i64) -> (r: Option<i64>)
    requires
        0 <= days <= 100_000,
    ensures
        r == Some((days * 86_400_000_000_000) as i64),
{
    chrono::Duration::days(days).num_nanoseconds()
}

impl Claims {
    /// The claims of a token for `sub` that is issued at `now` and good for
    /// `lifetime`, both in nanoseconds; nothing where either is negative or the
    /// expiry cannot be held.
    pub fn issue(sub: &String, now: i64, lifetime: i64) -> (r: Option<Claims>)
        ensures
            match r {
                Some(c) => {
                    &&& 0 <= now
                    &&& 0 <= lifetime
                    &&& c.sub@ == sub@
                    &&& c.iat == now
                    &&& c.exp == now + lifetime
                },
                None => now < 0 || lifetime < 0 || now + lifetime > usize::MAX,
            },
    {
        if now < 0 || lifetime < 0 {
            return None;
        }
        let issued: u64 = now as u64;
        let good_for: u64 = lifetime as u64;
        let expiry: u64 = issued + good_for;
        if expiry > usize::MAX as u64 {
            return None;
        }
        Some(Claims { sub: sub.clone(), iat: issued as usize, exp: expiry as usize })
    }

    /// Whom the token names, if it is still current at `now`: a token is refused as
    /// expired once `now` is past its expiry.
    pub fn subject_at(&self, now: usize) -> (r: Result<String, ErrorKind>)
        ensures
            match r {
                Ok(sub) => now <= self.exp && sub@ == self.sub@,
                Err(e) => now > self.exp && e@ == ErrorKindView::JWTCreationError(
                    JWTCError::TokenExpired,
                ),
            },
    {
        if now > self.exp {
            Err(ErrorKind::JWTCreationError(JWTCError::TokenExpired))
        } else {
            Ok(self.sub.clone())
        }
    }

    /// Whom the token names, if it is still current at the time `clock`; a time that
    /// cannot be counted in nanoseconds since 1970 leaves every token expired.
    pub fn subject_by(&self, clock: Option<i64>) -> (r: Result<String, ErrorKind>)
        ensures
            match r {
                Ok(sub) => clock matches Some(now) && 0 <= now <= self.exp && sub@ == self.sub@,
                Err(e) => !(clock matches Some(now) && 0 <= now <= self.exp) && e@
                    == ErrorKindView::JWTCreationError(JWTCError::TokenExpired),
            },
    {
        match clock {
            Some(now) => {
                if now < 0 || now as u64 > self.exp as u64 {
                    Err(ErrorKind::JWTCreationError(JWTCError::TokenExpired))
                } else {
                    Ok(self.sub.clone())
                }
            },
            None => Err(ErrorKind::JWTCreationError(JWTCError::TokenExpired)),
        }
    }
}

/// The claims of a token for `key`, issued now and good for seven days; nothing where
/// the clock is before 1970 or too far after it.
pub fn generate_claims(key: &String) -> (r: Option<Claims>)
    ensures
        r matches Some(c) ==> c.sub@ == key@ && c.exp == c.iat + token_lifetime(),
{
    claims_by(key, now_nanos())
}

/// Whom the token with these claims names, if it has not expired by now.
pub fn read_claims(claims: &Claims) -> (r: Result<String, ErrorKind>)
    ensures
        match r {
            Ok(sub) => sub@ == claims.sub@,
            Err(e) => e@ == ErrorKindView::JWTCreationError(JWTCError::TokenExpired),
        },
{
    claims.subject_by(now_nanos())
}

/// A token can be issued at the time `clock`: the time can be counted in nanoseconds
/// since 1970, is not before 1970, and the expiry, seven days on, can be held.
pub open spec fn can_issue(clock: Option<i64>) -> bool {
    clock matches Some(now) && 0 <= now && now + token_lifetime() <= usize::MAX
}

/// The claims of a token for `key` that is issued at the time `clock` and good for
/// seven days; nothing where no token can be issued at that time.
pub fn claims_by(key: &String, clock: Option<i64>) -> (r: Option<Claims>)
    ensures
        match r {
            Some(c) => {
                &&& can_issue(clock)
                &&& c.sub@ == key@
                &&& c.iat == clock->0
                &&& c.exp == c.iat + token_lifetime()
            },
            None => !can_issue(clock),
        },
{
    match (clock, days_in_nanoseconds(TOKEN_DAYS)) {
        (Some(now), Some(lifetime)) => Claims::issue(key, now, lifetime),
        _ => None,
    }
}

/// What is left of `s` when every `word` in it is taken out and what stood between
/// them is trimmed and put together. The words are found from the left, each after
/// the end of the one before.
pub open spec fn without_word(s: Seq<char>, word: Seq<char>) -> Seq<char>
    decreases s.len(),
    when word.len() > 0
{
    match first_occurrence(s, word) {
        Some(i) => {
            proof {
                lemma_first_occurrence_some(s, word);
            }
            trimmed(s.subrange(0, i)) + without_word(
                s.subrange(i + word.len(), s.len() as int),
                word,
            )
        },
        None => trimmed(s),
    }
}

/// The token that an `Authorization` header carries: the header without the word
/// `Bearer` and without the white space around it.
pub open spec fn bearer_token(header: Seq<char>) -> Seq<char> {
    without_word(header, "Bearer"@)
}

/// The token that a request presents in its `Authorization` header.
///
/// Fails with `InvalidValue` where the request has no such header.
pub fn api_key(header: Option<&str>) -> (r: Result<String, ErrorKind>)
    ensures
        match header {
            Some(h) => r matches Ok(token) && token@ == bearer_token(h@),
            None => r matches Err(e) && e@ == ErrorKindView::InvalidValue,
        },
{
    let h = match header {
        Some(h) => h,
        None => {
            return Err(ErrorKind::InvalidValue);
        },
    };
    proof {
        reveal_strlit("Bearer");
    }
    let word = to_chars("Bearer");
    let mut token = String::new();
    let mut rest: Vec<char> = to_chars(h);
    loop
        invariant
            header == Some(h),
            word@ == "Bearer"@,
            word@.len() == 6,
            bearer_token(h@) == token@ + without_word(rest@, word@),
        decreases rest.len(),
    {
        match find(&rest, &word) {
            Some(i) => {
                proof {
                    lemma_first_occurrence_some(rest@, word@);
                }
                let (a, b) = trim_range(&rest, 0, i);
                let part = text_of(&rest, a, b);
                token.append(part.as_str());
                let ghost before = rest@;
                let after = rest.split_off(i + 6);
                proof {
                    assert(after@ =~= before.subrange(i + 6, before.len() as int));
                }
                rest = after;
            },
            None => {
                let (a, b) = trim_range(&rest, 0, rest.len());
                let part = text_of(&rest, a, b);
                token.append(part.as_str());
                proof {
                    assert(rest@.subrange(0, rest@.len() as int) =~= rest@);
                    assert(without_word(rest@, word@) == trimmed(rest@));
                }
                return Ok(token);
            },
        }
    }
}

} // verus!
