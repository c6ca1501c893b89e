//! Firmware-upload validation: size limits, digest metadata, and the
//! content-type check.
//!
//! The upload itself is transport; what matters here is that an image is
//! non-empty, under the size limit, and recorded with its SHA-256 digest.

use vstd::prelude::*;

use crate::crypto::{sha256_digest, sha256_of};
use crate::hex::hex_of;
use crate::state::{AppState, FirmwareInfo};
use crate::text::{eq_ignore_ascii_case, eq_ignore_ascii_case_str, find_char, find_char_idx,
    trim_ows, trim_ows_str};

verus! {

/// The largest firmware image accepted, in bytes.
pub const MAX_FIRMWARE_SIZE: usize = 2 * 1024 * 1024;

/// Why a firmware image was rejected.
#[derive(Clone, Copy, Debug, PartialEq, Eq, Structural)]
pub enum FirmwareValidationError {
    /// The image is empty.
    Empty,
    /// The image exceeds the size limit; carries the offending size.
    TooLarge(usize),
}

impl FirmwareValidationError {
    /// The human-readable message reported with a rejected image.
    pub fn message(&self) -> (r: &'static str)
        ensures
            *self is Empty ==> r@ == "Firmware image cannot be empty"@,
            *self is TooLarge ==> r@ == "Firmware image exceeds 2 MiB limit"@,
    {
        match self {
            FirmwareValidationError::Empty => "Firmware image cannot be empty",
            FirmwareValidationError::TooLarge(_) => "Firmware image exceeds 2 MiB limit",
        }
    }
}

/// Checks an image size against the limits: an empty image and one over the
/// size limit are rejected, everything else is accepted.
pub fn enforce_firmware_constraints(len: usize) -> (r: Result<(), FirmwareValidationError>)
    ensures
        r is Ok <==> 0 < len <= MAX_FIRMWARE_SIZE,
        len == 0 ==> r == Result::<(), FirmwareValidationError>::Err(FirmwareValidationError::Empty),
        len > MAX_FIRMWARE_SIZE ==> r == Result::<(), FirmwareValidationError>::Err(
            FirmwareValidationError::TooLarge(len),
        ),
{
    if len == 0 {
        return Err(FirmwareValidationError::Empty);
    }
    if len > MAX_FIRMWARE_SIZE {
        return Err(FirmwareValidationError::TooLarge(len));
    }
    Ok(())
}

/// Builds the metadata recorded for an accepted image: its size, the hex of
/// its digest, the upload time, and not yet staged.
pub fn build_firmware_metadata(len: usize, digest: &[u8]) -> (r: FirmwareInfo)
    ensures
        r.sha256@ == hex_of(digest@),
        r.size == len,
        r.uploaded_at is Some,
        !r.staged,
{
    FirmwareInfo {
        sha256: crate::hex::hex_encode(digest),
        size: len as u64,
        uploaded_at: Some(crate::clock::timestamp_text(crate::clock::now_unix_seconds())),
        staged: false,
    }
}

/// Whether a `Content-Type` value denotes a raw octet stream: the part
/// before any parameters, trimmed, is `application/octet-stream` up to ASCII
/// case.
pub open spec fn is_octet_stream_value(s: Seq<char>) -> bool {
    eq_ignore_ascii_case(trim_ows(s.take(find_char_idx(s, ';'))), "application/octet-stream"@)
}

/// Checks whether an optional `Content-Type` header denotes a raw octet
/// stream; a missing header does not.
pub fn is_octet_stream(content_type: Option<&str>) -> (r: bool)
    ensures
        r == match content_type {
            Some(s) => is_octet_stream_value(s@),
            None => false,
        },
{
    let value = match content_type {
        Some(value) => value,
        None => {
            return false;
        },
    };
    let semi = find_char(value, ';');
    let head = value.substring_char(0, semi);
    proof {
        assert(head@ =~= value@.take(semi as int));
    }
    let trimmed = trim_ows_str(head);
    eq_ignore_ascii_case_str(trimmed, "application/octet-stream")
}

/// Validates an uploaded image and records its metadata in the state: a
/// non-empty image within the size limit is accepted and its digest and size
/// recorded; anything else is rejected and the state left unchanged.
pub fn process_firmware_upload(state: &mut AppState, payload: &[u8]) -> (r: Result<
    FirmwareInfo,
    FirmwareValidationError,
>)
    ensures
        r is Ok <==> 0 < payload@.len() <= MAX_FIRMWARE_SIZE,
        r matches Ok(info) ==> info.sha256@ == hex_of(sha256_of(payload@)) && info.size
            == payload@.len() && info.uploaded_at is Some && !info.staged,
        r matches Ok(info) ==> final(state).firmware == Some(info) && final(state).credentials
            == old(state).credentials && final(state).provisioned == old(state).provisioned,
        r matches Err(e) ==> *final(state) == *old(state) && e == (if payload@.len() == 0 {
            FirmwareValidationError::Empty
        } else {
            FirmwareValidationError::TooLarge(payload@.len() as usize)
        }),
{
    if let Err(error) = enforce_firmware_constraints(payload.len()) {
        return Err(error);
    }
    let digest = sha256_digest(payload);
    let metadata = build_firmware_metadata(payload.len(), digest.as_slice());
    state.firmware = Some(metadata.clone());
    Ok(metadata)
}

} // verus!
