//! Cryptographic primitives: salt and token generation, password hashing,
//! and constant-time comparison.
//!
//! The primitives themselves come from outside crates and are reached through
//! trusted wrappers; everything layered on top of them is verified. A PBKDF2
//! digest or a SHA-256 digest is a pure function of its inputs whose value no
//! short specification can give, so each is named by an uninterpreted spec
//! function, and contracts speak of the name.

use vstd::prelude::*;

use crate::hex::{hex_of, is_hex_digit, lemma_hex_of_digits, lemma_hex_of_len,
    lemma_hex_of_injective};
use vstd::string::StringSliceAdditionalSpecFns;

verus! {

/// Length of a credential salt, in bytes.
pub const SALT_LEN: usize = 16;

/// Length of a session token, in raw bytes (64 hex characters encoded).
pub const TOKEN_LEN: usize = 32;

/// Length of a PBKDF2 password digest, in bytes (64 hex characters encoded).
pub const HASH_LEN: usize = 32;

/// PBKDF2 iteration count used for every password digest.
pub const PBKDF2_ITERATIONS: u32 = 100_000;

/// The PBKDF2-HMAC-SHA256 digest of a password under a salt, with the given
/// round count and output length. A pure function of its arguments; its value
/// is given by the `pbkdf2` crate.
pub uninterp spec fn pbkdf2_sha256_of(
    password: Seq<u8>,
    salt: Seq<u8>,
    rounds: u32,
    out_len: usize,
) -> Seq<u8>;

/// The SHA-256 digest of a byte string. A pure function of its argument;
/// its value is given by the `sha2` crate.
pub uninterp spec fn sha256_of(bytes: Seq<u8>) -> Seq<u8>;

/// Relies on rand's `OsRng::fill_bytes` (a CSPRNG): fills a buffer of the
/// requested length. Nothing can be promised about the values drawn.
#[verifier::external_body]
fn os_random_bytes(n: usize) -> (r: Vec<u8>)
    ensures
        r@.len() == n,
{
    let mut buf = vec![0u8; n];
    rand::RngCore::fill_bytes(&mut rand::rngs::OsRng, &mut buf);
    buf
}

/// Relies on pbkdf2's `pbkdf2_hmac::<Sha256>`: fills the output buffer, whose
/// length it takes as given, with the digest of `(password, salt, rounds)`.
#[verifier::external_body]
fn pbkdf2_hmac_sha256(password: &[u8], salt: &[u8], rounds: u32, out_len: usize) -> (r: Vec<u8>)
    ensures
        r@ == pbkdf2_sha256_of(password@, salt@, rounds, out_len),
        r@.len() == out_len,
{
    let mut out = vec![0u8; out_len];
    pbkdf2::pbkdf2_hmac::<sha2::Sha256>(password, salt, rounds, &mut out);
    out
}

/// Relies on subtle's `ConstantTimeEq::ct_eq` for byte slices: returns
/// `Choice(1)` exactly when the slices have equal length and contents, and,
/// for equal lengths, runs in time independent of where they first differ.
#[verifier::external_body]
fn ct_eq_bytes(a: &[u8], b: &[u8]) -> (r: bool)
    ensures
        r == (a@ == b@),
{
    let choice = subtle::ConstantTimeEq::ct_eq(a, b);
    choice.unwrap_u8() == 1
}

/// Relies on sha2's `Sha256::digest`: returns the 32-byte SHA-256 digest of
/// the input.
#[verifier::external_body]
pub(crate) fn sha256_digest(bytes: &[u8]) -> (r: Vec<u8>)
    ensures
        r@ == sha256_of(bytes@),
        r@.len() == 32,
{
    <sha2::Sha256 as sha2::Digest>::digest(bytes).to_vec()
}

/// Draws a fresh credential salt: 16 bytes from the CSPRNG.
pub fn generate_salt() -> (r: Vec<u8>)
    ensures
        r@.len() == SALT_LEN,
{
    os_random_bytes(SALT_LEN)
}

/// Draws a fresh session token: 32 bytes from the CSPRNG, hex-encoded into
/// 64 characters for transport.
pub fn generate_token() -> (r: String)
    ensures
        r@.len() == 2 * TOKEN_LEN,
        forall|i: int| 0 <= i < r@.len() ==> is_hex_digit(#[trigger] r@[i]),
{
    let bytes = os_random_bytes(TOKEN_LEN);
    let token = crate::hex::hex_encode(bytes.as_slice());
    proof {
        lemma_hex_of_len(bytes@);
        lemma_hex_of_digits(bytes@);
    }
    token
}

/// The hex-encoded password digest that a candidate password yields under a
/// salt: what `derive_password_hash` returns and what a stored hash is
/// compared against.
pub open spec fn password_hash_of(password: Seq<char>, salt: Seq<u8>) -> Seq<char> {
    hex_of(pbkdf2_sha256_of(vstd::utf8::encode_utf8(password), salt, PBKDF2_ITERATIONS, HASH_LEN))
}

/// Derives the password hash: PBKDF2-HMAC-SHA256 with 100,000 iterations and
/// a 32-byte output, hex-encoded. Deterministic in `(password, salt)`.
pub fn derive_password_hash(password: &str, salt: &[u8]) -> (r: String)
    ensures
        r@ == password_hash_of(password@, salt@),
        r@.len() == 2 * HASH_LEN,
{
    let digest = pbkdf2_hmac_sha256(password.as_bytes(), salt, PBKDF2_ITERATIONS, HASH_LEN);
    proof {
        lemma_hex_of_len(digest@);
    }
    crate::hex::hex_encode(digest.as_slice())
}

/// Compares two strings for equality without leaking, through timing, where
/// equal-length inputs first differ. Lengths are compared directly (they are
/// not secret); the contents go through subtle's constant-time comparison.
pub fn constant_time_equals(left: &str, right: &str) -> (r: bool)
    ensures
        r == (left@ == right@),
        left@.len() != right@.len() ==> r == false,
{
    proof {
        vstd::utf8::encode_utf8_decode_utf8(left@);
        vstd::utf8::encode_utf8_decode_utf8(right@);
        assert(left@ == right@ <==> left.spec_bytes() == right.spec_bytes());
    }
    if left.len() != right.len() {
        return false;
    }
    ct_eq_bytes(left.as_bytes(), right.as_bytes())
}

/// Completeness and soundness of password verification against a stored
/// hash: the password whose digest the hash encodes always matches, and a
/// candidate whose digest differs never does.
///
/// Two distinct passwords with equal PBKDF2 digests under the same salt (a
/// collision) would compare equal; no statement over the digest alone can
/// exclude that, so the mismatch case assumes the digests differ.
pub proof fn lemma_password_hash_decides(password: Seq<char>, candidate: Seq<char>, salt: Seq<u8>)
    ensures
        password_hash_of(candidate, salt) == password_hash_of(password, salt) <==>
            pbkdf2_sha256_of(
                vstd::utf8::encode_utf8(candidate),
                salt,
                PBKDF2_ITERATIONS,
                HASH_LEN,
            ) == pbkdf2_sha256_of(
                vstd::utf8::encode_utf8(password),
                salt,
                PBKDF2_ITERATIONS,
                HASH_LEN,
            ),
{
    let d1 = pbkdf2_sha256_of(vstd::utf8::encode_utf8(candidate), salt, PBKDF2_ITERATIONS,
        HASH_LEN);
    let d2 = pbkdf2_sha256_of(vstd::utf8::encode_utf8(password), salt, PBKDF2_ITERATIONS,
        HASH_LEN);
    if hex_of(d1) == hex_of(d2) {
        lemma_hex_of_injective(d1, d2);
    }
}

} // verus!
