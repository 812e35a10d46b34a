use crate::clock::{now_unix_nanos, TIME_BOUND_NANOS};
use vstd::prelude::*;

verus! {

/// An access token that the identity provider issued, valid for
/// `expires_in` seconds.
#[derive(Debug)]
pub struct Token {
    pub access_token: String,
    pub expires_in: u64,
    pub scope: String,
    pub token_type: String,
}

/// An access token with the time it stops being valid, in nanoseconds since
/// the Unix epoch.
#[derive(Debug)]
pub struct TokenWithExpiry {
    pub token: String,
    pub expires_at: i128,
}

impl TokenWithExpiry {
    /// The token issued at `now`: it expires `expires_in` seconds later.
    pub fn issued_at(token: Token, now: i128) -> (r: TokenWithExpiry)
        requires
            -TIME_BOUND_NANOS <= now <= TIME_BOUND_NANOS,
        ensures
            r.token == token.access_token,
            r.expires_at == now + token.expires_in * 1_000_000_000,
    {
        TokenWithExpiry {
            token: token.access_token,
            expires_at: now + (token.expires_in as i128) * 1_000_000_000,
        }
    }

    /// The token, issued now.
    pub fn from(token: Token) -> (r: TokenWithExpiry)
        ensures
            r.token == token.access_token,
            -TIME_BOUND_NANOS <= r.expires_at - token.expires_in * 1_000_000_000
                <= TIME_BOUND_NANOS,
    {
        let now = now_unix_nanos();
        TokenWithExpiry::issued_at(token, now)
    }

    /// Whether the token is still valid at `now`.
    pub fn is_fresh_at(&self, now: i128) -> (r: bool)
        ensures
            r == (now < self.expires_at),
    {
        now < self.expires_at
    }

    /// Whether the token is still valid now. The clock decides; a token
    /// that expires before any time the clock can read is never fresh, and
    /// one that expires after it always is.
    pub fn is_fresh(&self) -> (r: bool)
        ensures
            r ==> -TIME_BOUND_NANOS < self.expires_at,
            !r ==> self.expires_at <= TIME_BOUND_NANOS,
    {
        let now = now_unix_nanos();
        self.is_fresh_at(now)
    }

    /// The token's value.
    pub fn token(&self) -> (r: &str)
        ensures
            r@ == self.token@,
    {
        self.token.as_str()
    }
}

/// The cached token where it is still valid at `now`; a new one is needed
/// otherwise.
pub fn fresh_token_at(cached: &Option<TokenWithExpiry>, now: i128) -> (r: Option<&str>)
    ensures
        match cached {
            Some(t) => if now < t.expires_at {
                r matches Some(s) && s@ == t.token@
            } else {
                r is None
            },
            None => r is None,
        },
{
    match cached {
        Some(t) => if t.is_fresh_at(now) {
            Some(t.token())
        } else {
            None
        },
        None => None,
    }
}

/// An e-mail to send.
#[derive(Debug)]
pub struct Email {
    pub to: String,
    pub subject: String,
    pub text_body: String,
    pub html_body: String,
}

} // verus!
