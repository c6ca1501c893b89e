//! The administrator credential: username, salted password hash, and the at
//! most one active session token.
//!
//! The password is never stored or compared in plaintext: verification
//! derives the candidate's hash under the stored salt and compares hashes in
//! constant time. Salt and hash are only ever regenerated together.

use vstd::prelude::*;

use crate::crypto::{constant_time_equals, derive_password_hash, generate_salt, generate_token,
    password_hash_of, pbkdf2_sha256_of, HASH_LEN, PBKDF2_ITERATIONS, SALT_LEN};
use crate::session::{SessionToken, TokenValidation};

verus! {

/// The administrator credential and its at most one active session.
pub struct Credentials {
    /// The administrator's username, compared case-sensitively at login.
    pub username: String,
    /// Hex-encoded PBKDF2-HMAC-SHA256 digest of the password under `salt`.
    pub password_hash: String,
    /// The random salt the hash was derived under.
    pub salt: Vec<u8>,
    /// The active session, if one exists.
    pub token: Option<SessionToken>,
}

impl Clone for Credentials {
    fn clone(&self) -> (r: Self)
        ensures
            r.username == self.username,
            r.password_hash == self.password_hash,
            r.salt@ == self.salt@,
            r.token == self.token,
    {
        Credentials {
            username: self.username.clone(),
            password_hash: self.password_hash.clone(),
            salt: vstd::slice::slice_to_vec(self.salt.as_slice()),
            token: match &self.token {
                Some(t) => Some(t.clone()),
                None => None,
            },
        }
    }
}

impl Default for Credentials {
    /// The first-boot credential: the default (insecure, documented)
    /// username and password, to be replaced at provisioning.
    fn default() -> (r: Self)
        ensures
            r.wf(),
            r.username@ == "admin"@,
            r.password_matches("admin"@),
            r.token is None,
    {
        Credentials::with_password("admin", "admin")
    }
}

impl Credentials {
    /// Structural invariant: the salt has its fixed length.
    pub open spec fn wf(self) -> bool {
        self.salt@.len() == SALT_LEN
    }

    /// Whether a candidate password's hash under the stored salt equals the
    /// stored hash: what `verify_password` decides.
    pub open spec fn password_matches(self, candidate: Seq<char>) -> bool {
        password_hash_of(candidate, self.salt@) == self.password_hash@
    }

    /// The decision `validate_token` reaches for a candidate value at time
    /// `now`: `Invalid` when there is no session or the value differs (the
    /// two are indistinguishable to the caller), `Expired` when the matching
    /// session idled out, `Authorized` otherwise.
    pub open spec fn validate_decision(self, candidate: Seq<char>, now: u64) -> TokenValidation {
        match self.token {
            None => TokenValidation::Invalid,
            Some(t) => if t.value@ != candidate {
                TokenValidation::Invalid
            } else if t.is_expired_spec(now) {
                TokenValidation::Expired
            } else {
                TokenValidation::Authorized
            },
        }
    }

    /// The credential state after `validate_token`: an expired session is
    /// consumed, an authorized one has its idle clock reset, anything else
    /// is left as it was.
    pub open spec fn validate_next(self, candidate: Seq<char>, now: u64) -> Credentials {
        match self.token {
            None => self,
            Some(t) => if t.value@ != candidate {
                self
            } else if t.is_expired_spec(now) {
                (Credentials { token: None, ..self })
            } else {
                (Credentials {
                    token: Some(
                        (SessionToken { last_seen: now, value: t.value, issued_at: t.issued_at }),
                    ),
                    ..self
                })
            },
        }
    }

    /// Builds a credential from a username and password: draws a fresh salt,
    /// derives the hash, and starts with no session.
    pub fn with_password(username: &str, password: &str) -> (r: Self)
        ensures
            r.wf(),
            r.username@ == username@,
            r.password_hash@ == password_hash_of(password@, r.salt@),
            r.token is None,
    {
        let salt = generate_salt();
        let password_hash = derive_password_hash(password, salt.as_slice());
        Credentials { username: username.to_owned(), password_hash, salt, token: None }
    }

    /// Verifies a candidate password: derives its hash under the stored salt
    /// and compares against the stored hash in constant time. Plaintext
    /// passwords are never compared.
    pub fn verify_password(&self, candidate: &str) -> (r: bool)
        ensures
            r == self.password_matches(candidate@),
    {
        let candidate_hash = derive_password_hash(candidate, self.salt.as_slice());
        constant_time_equals(candidate_hash.as_str(), self.password_hash.as_str())
    }

    /// Replaces the password: regenerates salt and hash together. The
    /// session is left untouched; the caller decides whether to invalidate.
    pub fn set_password(&mut self, new_password: &str)
        ensures
            final(self).wf(),
            final(self).password_hash@ == password_hash_of(new_password@, final(self).salt@),
            final(self).username == old(self).username,
            final(self).token == old(self).token,
    {
        self.salt = generate_salt();
        self.password_hash = derive_password_hash(new_password, self.salt.as_slice());
    }

    /// Issues a fresh session token at time `now`, replacing any existing
    /// session (single-session policy), and returns the value to hand to the
    /// client.
    pub fn issue_token_at(&mut self, now: u64) -> (r: String)
        ensures
            r@.len() == 64,
            forall|i: int| 0 <= i < r@.len() ==> crate::hex::is_hex_digit(#[trigger] r@[i]),
            final(self).token matches Some(t) && t.value == r && t.issued_at == now
                && t.last_seen == now,
            final(self).username == old(self).username,
            final(self).password_hash == old(self).password_hash,
            final(self).salt == old(self).salt,
    {
        let value = generate_token();
        self.token = Some(SessionToken::new(value.clone(), now));
        value
    }

    /// Issues a fresh session token at the current time, replacing any
    /// existing session, and returns the value to hand to the client.
    pub fn issue_token(&mut self) -> (r: String)
        ensures
            r@.len() == 64,
            forall|i: int| 0 <= i < r@.len() ==> crate::hex::is_hex_digit(#[trigger] r@[i]),
            final(self).token matches Some(t) && t.value == r && t.issued_at == t.last_seen,
            final(self).username == old(self).username,
            final(self).password_hash == old(self).password_hash,
            final(self).salt == old(self).salt,
    {
        let now = crate::clock::now_unix_seconds();
        self.issue_token_at(now)
    }

    /// Clears the active session unconditionally; idempotent.
    pub fn invalidate_token(&mut self)
        ensures
            final(self).token is None,
            final(self).username == old(self).username,
            final(self).password_hash == old(self).password_hash,
            final(self).salt == old(self).salt,
    {
        self.token = None;
    }

    /// Validates a candidate token value at time `now`. A mismatching value
    /// and a missing session give the same answer, so a caller learns
    /// nothing about whether a session exists; a matching expired session is
    /// consumed; a matching live one has its idle clock reset.
    pub fn validate_token(&mut self, candidate: &str, now: u64) -> (r: TokenValidation)
        ensures
            r == old(self).validate_decision(candidate@, now),
            *final(self) == old(self).validate_next(candidate@, now),
    {
        match &mut self.token {
            Some(session) => {
                if !constant_time_equals(session.value.as_str(), candidate) {
                    return TokenValidation::Invalid;
                }
                if session.is_expired(now) {
                    self.token = None;
                    TokenValidation::Expired
                } else {
                    session.touch(now);
                    TokenValidation::Authorized
                }
            },
            None => TokenValidation::Invalid,
        }
    }
}

/// Password verification decides by the digest: the password whose digest
/// the stored hash encodes always matches, and a candidate whose digest
/// under the same salt differs never does.
///
/// Two distinct passwords whose PBKDF2 digests under one salt collide would
/// both match; nothing stated of the digest alone can exclude that, so the
/// mismatch claim assumes the digests differ.
pub proof fn lemma_verify_password_decides(
    creds: Credentials,
    password: Seq<char>,
    candidate: Seq<char>,
)
    requires
        creds.password_hash@ == password_hash_of(password, creds.salt@),
    ensures
        creds.password_matches(password),
        pbkdf2_sha256_of(
            vstd::utf8::encode_utf8(candidate),
            creds.salt@,
            PBKDF2_ITERATIONS,
            HASH_LEN,
        ) != pbkdf2_sha256_of(
            vstd::utf8::encode_utf8(password),
            creds.salt@,
            PBKDF2_ITERATIONS,
            HASH_LEN,
        ) ==> !creds.password_matches(candidate),
{
    crate::crypto::lemma_password_hash_decides(password, candidate, creds.salt@);
}

/// A freshly issued token authorizes: validating the live session's own
/// value before its idle timeout has elapsed (or at an earlier clock, which
/// counts as skew, not idleness) returns `Authorized`.
pub proof fn lemma_issued_token_authorizes(creds: Credentials, seen: u64, later: u64)
    requires
        creds.token matches Some(t) && t.last_seen == seen,
        later < seen + crate::session::SESSION_IDLE_TIMEOUT_SECS,
    ensures
        creds.validate_decision(creds.token->0.value@, later) == TokenValidation::Authorized,
{
}

/// Issuing a token invalidates the previous session: once the live session
/// holds a value other than the old one — and a fresh draw differs from the
/// old value except with negligible probability — validating the old value
/// returns `Invalid`, at every time.
pub proof fn lemma_new_token_invalidates_old(creds: Credentials, old_value: Seq<char>, now: u64)
    requires
        creds.token matches Some(t) && t.value@ != old_value,
    ensures
        creds.validate_decision(old_value, now) == TokenValidation::Invalid,
        creds.validate_next(old_value, now) == creds,
{
}

/// A candidate that does not match is answered exactly as if no session
/// existed at all: both validate to `Invalid` and leave the credential
/// untouched, so the answer reveals nothing about whether a session exists.
pub proof fn lemma_mismatch_hides_session_existence(
    with_session: Credentials,
    without_session: Credentials,
    candidate: Seq<char>,
    now: u64,
)
    requires
        with_session.token matches Some(t) && t.value@ != candidate,
        without_session.token is None,
    ensures
        with_session.validate_decision(candidate, now) == without_session.validate_decision(
            candidate,
            now,
        ),
        with_session.validate_decision(candidate, now) == TokenValidation::Invalid,
        with_session.validate_next(candidate, now) == with_session,
        without_session.validate_next(candidate, now) == without_session,
{
}

/// Sliding idle expiry at the boundary: a token last seen at `t` is
/// authorized when validated one second before the idle timeout, and its
/// idle clock is reset to the validation time; validated one second after
/// the timeout it is expired and consumed, and every later validation —
/// whatever the value offered — returns `Invalid`.
pub proof fn lemma_idle_expiry_boundary(creds: Credentials, candidate: Seq<char>, t: u64)
    requires
        creds.token matches Some(tok) && tok.value@ == candidate && tok.last_seen == t,
        t + crate::session::SESSION_IDLE_TIMEOUT_SECS + 1 <= u64::MAX,
    ensures
        creds.validate_decision(candidate, (t + 899) as u64) == TokenValidation::Authorized,
        creds.validate_next(candidate, (t + 899) as u64).token matches Some(t2) && t2.last_seen
            == t + 899,
        creds.validate_decision(candidate, (t + 901) as u64) == TokenValidation::Expired,
        creds.validate_next(candidate, (t + 901) as u64).token is None,
        forall|other: Seq<char>, later: u64|
            #[trigger] creds.validate_next(candidate, (t + 901) as u64).validate_decision(
                other,
                later,
            ) == TokenValidation::Invalid,
{
}

} // verus!
