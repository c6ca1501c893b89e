//! The authorization gate: parsing the `Authorization` header and deciding
//! whether a request may pass.
//!
//! A missing header, a malformed header and a mismatching token each map to
//! a distinct internal failure, but a mismatching token and a missing
//! session are indistinguishable to the caller — both are `Invalid` — so a
//! client never learns whether a session exists.

use vstd::prelude::*;

use crate::credentials::Credentials;
use crate::session::TokenValidation;
use crate::text::{eq_ignore_ascii_case, eq_ignore_ascii_case_str, find_char, find_char_idx,
    trim_ows, trim_ows_str};

verus! {

/// The `WWW-Authenticate` value sent when authorization is missing or
/// invalid.
pub const WWW_AUTH_INVALID: &'static str = "Bearer error=\"invalid_token\"";

/// The `WWW-Authenticate` value sent when the session has expired.
pub const WWW_AUTH_EXPIRED: &'static str =
    "Bearer error=\"invalid_token\", error_description=\"session expired\"";

/// The marker header set alongside an expired-session response, so a client
/// can redirect to login instead of showing a generic error.
pub const SESSION_EXPIRED_HEADER: &'static str = "X-Session-Expired";

/// Why a request was refused authorization.
#[derive(Clone, Copy, Debug, PartialEq, Eq, Structural)]
pub enum AuthorizationFailure {
    /// No `Authorization` header was present.
    Missing,
    /// The header was not a bearer credential, or the token did not match.
    Invalid,
    /// The token matched but the session had idled out; it is now consumed.
    Expired,
}

/// The token in a `Bearer <token>` authorization header: the part after the
/// first space, trimmed, provided the part before it is `bearer` in any case
/// and the token is non-empty.
pub open spec fn bearer_token_of(header: Seq<char>) -> Option<Seq<char>> {
    let sp = find_char_idx(header, ' ');
    if sp == header.len() {
        None
    } else {
        let scheme = trim_ows(header.take(sp));
        let token = trim_ows(header.skip(sp + 1));
        if eq_ignore_ascii_case(scheme, "bearer"@) && token.len() > 0 {
            Some(token)
        } else {
            None
        }
    }
}

/// Extracts the token from a `Bearer <token>` header value.
pub fn extract_bearer_token(header_value: &str) -> (r: Option<&str>)
    ensures
        r is Some <==> bearer_token_of(header_value@) is Some,
        r matches Some(t) ==> t@ == bearer_token_of(header_value@)->0,
{
    let n = header_value.unicode_len();
    let sp = find_char(header_value, ' ');
    if sp == n {
        return None;
    }
    let scheme_part = header_value.substring_char(0, sp);
    let token_part = header_value.substring_char(sp + 1, n);
    proof {
        assert(scheme_part@ =~= header_value@.take(sp as int));
        assert(token_part@ =~= header_value@.skip(sp + 1 as int));
    }
    let scheme = trim_ows_str(scheme_part);
    let token = trim_ows_str(token_part);
    if eq_ignore_ascii_case_str(scheme, "bearer") && token.unicode_len() > 0 {
        Some(token)
    } else {
        None
    }
}

/// A header of the exact form `Bearer <token>` parses back to the token,
/// for any non-empty token that neither starts nor ends with whitespace —
/// in particular for the hex values this library issues.
pub proof fn lemma_bearer_header_round_trip(token: Seq<char>)
    requires
        token.len() > 0,
        !crate::text::is_ows(token[0]),
        !crate::text::is_ows(token[token.len() - 1]),
    ensures
        bearer_token_of("Bearer "@ + token) == Some(token),
{
    let h = "Bearer "@ + token;
    reveal_strlit("Bearer ");
    reveal_strlit("Bearer");
    reveal_strlit("bearer");
    assert forall|j: int| 0 <= j < 6 implies h[j] != ' ' by {
        assert(h[j] == "Bearer "@[j]);
    }
    assert(h[6] == ' ');
    crate::text::lemma_find_char_idx_is(h, ' ', 6);
    assert(h.take(6) =~= "Bearer"@);
    crate::text::lemma_trim_start_idx_is("Bearer"@, 0);
    crate::text::lemma_trim_end_idx_is("Bearer"@, 6);
    assert(trim_ows("Bearer"@) =~= "Bearer"@);
    assert(eq_ignore_ascii_case("Bearer"@, "bearer"@));
    assert(h.skip(7) =~= token);
    crate::text::lemma_trim_start_idx_is(token, 0);
    crate::text::lemma_trim_end_idx_is(token, token.len() as int);
    assert(trim_ows(token) =~= token);
}

/// The view of an optional header value.
pub open spec fn header_view(header: Option<&str>) -> Option<Seq<char>> {
    match header {
        Some(h) => Some(h@),
        None => None,
    }
}

/// What authorization decides for a header value against a credential at
/// time `now`: `Missing` without a header, `Invalid` for anything that is
/// not a well-formed bearer credential, and otherwise whatever token
/// validation decides.
pub open spec fn authorize_decision(
    header: Option<Seq<char>>,
    credentials: Credentials,
    now: u64,
) -> Result<(), AuthorizationFailure> {
    match header {
        None => Err(AuthorizationFailure::Missing),
        Some(h) => match bearer_token_of(h) {
            None => Err(AuthorizationFailure::Invalid),
            Some(token) => match credentials.validate_decision(token, now) {
                TokenValidation::Authorized => Ok(()),
                TokenValidation::Expired => Err(AuthorizationFailure::Expired),
                TokenValidation::Invalid => Err(AuthorizationFailure::Invalid),
            },
        },
    }
}

/// The credential state after authorization: validation touches a live
/// session and consumes an expired one; a request that never reaches
/// validation changes nothing.
pub open spec fn authorize_next(
    header: Option<Seq<char>>,
    credentials: Credentials,
    now: u64,
) -> Credentials {
    match header {
        None => credentials,
        Some(h) => match bearer_token_of(h) {
            None => credentials,
            Some(token) => credentials.validate_next(token, now),
        },
    }
}

/// Runs the authorization gate at time `now`: parses the header, validates
/// the token, and reports why a refused request was refused.
pub fn authorize_at(
    header: Option<&str>,
    credentials: &mut Credentials,
    now: u64,
) -> (r: Result<(), AuthorizationFailure>)
    ensures
        r == authorize_decision(header_view(header), *old(credentials), now),
        *final(credentials) == authorize_next(header_view(header), *old(credentials), now),
{
    let header_value = match header {
        Some(value) => value,
        None => {
            return Err(AuthorizationFailure::Missing);
        },
    };
    let token = match extract_bearer_token(header_value) {
        Some(token) => token,
        None => {
            return Err(AuthorizationFailure::Invalid);
        },
    };
    match credentials.validate_token(token, now) {
        TokenValidation::Authorized => Ok(()),
        TokenValidation::Expired => Err(AuthorizationFailure::Expired),
        TokenValidation::Invalid => Err(AuthorizationFailure::Invalid),
    }
}

/// Runs the authorization gate at the current time.
pub fn authorize(header: Option<&str>, credentials: &mut Credentials) -> (r: Result<
    (),
    AuthorizationFailure,
>)
    ensures
        exists|now: u64|
            {
                &&& r == authorize_decision(header_view(header), *old(credentials), now)
                &&& *final(credentials) == #[trigger] authorize_next(
                    header_view(header),
                    *old(credentials),
                    now,
                )
            },
{
    let now = crate::clock::now_unix_seconds();
    authorize_at(header, credentials, now)
}

/// A live session's own token, presented as a well-formed `Bearer` header,
/// authorizes the request as long as the session has not idled out: what
/// issuance promises, the whole chain — header parsing, constant-time
/// comparison, expiry — delivers.
pub proof fn lemma_fresh_session_is_authorized(credentials: Credentials, seen: u64, later: u64)
    requires
        credentials.token matches Some(t) && t.last_seen == seen,
        credentials.token->0.value@.len() > 0,
        !crate::text::is_ows(credentials.token->0.value@[0]),
        !crate::text::is_ows(credentials.token->0.value@[credentials.token->0.value@.len() - 1]),
        later < seen + crate::session::SESSION_IDLE_TIMEOUT_SECS,
    ensures
        authorize_decision(
            Some("Bearer "@ + credentials.token->0.value@),
            credentials,
            later,
        ) == Result::<(), AuthorizationFailure>::Ok(()),
{
    lemma_bearer_header_round_trip(credentials.token->0.value@);
    crate::credentials::lemma_issued_token_authorizes(credentials, seen, later);
}

/// What an unauthorized response carries: the status, a plain-text message,
/// the `WWW-Authenticate` value, and whether the expired-session marker
/// header is set.
pub struct UnauthorizedResponse {
    /// Always 401.
    pub status: u16,
    /// The plain-text body.
    pub message: &'static str,
    /// The `WWW-Authenticate` header value.
    pub www_authenticate: &'static str,
    /// Whether the expired-session marker header accompanies the response.
    pub session_expired: bool,
}

/// Maps an authorization failure to the response contract: always 401;
/// missing and invalid credentials are indistinguishable, an expired session
/// carries a distinct challenge and the marker header.
pub fn unauthorized_response(failure: AuthorizationFailure) -> (r: UnauthorizedResponse)
    ensures
        r.status == 401,
        r.session_expired <==> failure is Expired,
        failure is Expired ==> r.www_authenticate@ == WWW_AUTH_EXPIRED@ && r.message@
            == "Session expired"@,
        !(failure is Expired) ==> r.www_authenticate@ == WWW_AUTH_INVALID@ && r.message@
            == "Unauthorized"@,
{
    match failure {
        AuthorizationFailure::Missing | AuthorizationFailure::Invalid => UnauthorizedResponse {
            status: 401,
            message: "Unauthorized",
            www_authenticate: WWW_AUTH_INVALID,
            session_expired: false,
        },
        AuthorizationFailure::Expired => UnauthorizedResponse {
            status: 401,
            message: "Session expired",
            www_authenticate: WWW_AUTH_EXPIRED,
            session_expired: true,
        },
    }
}

} // verus!
