//! Session tokens with sliding idle expiry.
//!
//! At most one token exists at a time, owned by the credentials. Expiry is
//! measured from the last successful authorized use, not from issuance; a
//! clock that appears to have gone backwards counts as not expired.

use vstd::prelude::*;

verus! {

/// Idle timeout of a session, in seconds: a token unused for this long is
/// expired.
pub const SESSION_IDLE_TIMEOUT_SECS: u64 = 15 * 60;

/// A bearer session token: an opaque random value and the timestamps that
/// drive idle expiry, in seconds since the Unix epoch.
pub struct SessionToken {
    /// The random token value, 64 hex characters, as handed to the client.
    pub value: String,
    /// When the token was issued.
    pub issued_at: u64,
    /// When the token last passed validation; the idle clock runs from here.
    pub last_seen: u64,
}

/// The outcome of validating a candidate token value.
#[derive(Clone, Copy, Debug, PartialEq, Eq, Structural)]
pub enum TokenValidation {
    /// The candidate matches the live session and it has not idled out.
    Authorized,
    /// The candidate matches but the session idled out; it is now consumed.
    Expired,
    /// No live session, or the candidate does not match it.
    Invalid,
}

impl Clone for SessionToken {
    fn clone(&self) -> (r: Self)
        ensures
            r == *self,
    {
        SessionToken {
            value: self.value.clone(),
            issued_at: self.issued_at,
            last_seen: self.last_seen,
        }
    }
}

impl SessionToken {
    /// Whether the token is idle-expired at time `now`: at least the idle
    /// timeout has passed since it was last seen. A `now` before `last_seen`
    /// (clock skew) counts as not expired.
    pub open spec fn is_expired_spec(self, now: u64) -> bool {
        now >= self.last_seen && now - self.last_seen >= SESSION_IDLE_TIMEOUT_SECS
    }

    /// A fresh token, last seen at its issuance time.
    pub fn new(value: String, now: u64) -> (r: Self)
        ensures
            r.value == value,
            r.issued_at == now,
            r.last_seen == now,
    {
        SessionToken { value, issued_at: now, last_seen: now }
    }

    /// Whether the token is idle-expired at time `now`.
    pub fn is_expired(&self, now: u64) -> (r: bool)
        ensures
            r == self.is_expired_spec(now),
    {
        now >= self.last_seen && now - self.last_seen >= SESSION_IDLE_TIMEOUT_SECS
    }

    /// Resets the idle clock: records `now` as the last successful use.
    pub fn touch(&mut self, now: u64)
        ensures
            final(self).last_seen == now,
            final(self).value == old(self).value,
            final(self).issued_at == old(self).issued_at,
    {
        self.last_seen = now;
    }
}

} // verus!
