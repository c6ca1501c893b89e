use controller_core::firmware::{
    build_firmware_metadata, enforce_firmware_constraints, is_octet_stream,
    process_firmware_upload, FirmwareValidationError, MAX_FIRMWARE_SIZE,
};
use controller_core::hex::hex_encode;
use controller_core::state::AppState;
use controller_core::store::NvsStore;
use sha2::{Digest, Sha256};

#[test]
fn firmware_constraints_enforce_limits() {
    assert_eq!(
        enforce_firmware_constraints(0),
        Err(FirmwareValidationError::Empty)
    );

    let oversized = MAX_FIRMWARE_SIZE + 1;
    assert_eq!(
        enforce_firmware_constraints(oversized),
        Err(FirmwareValidationError::TooLarge(oversized))
    );

    assert_eq!(enforce_firmware_constraints(MAX_FIRMWARE_SIZE), Ok(()));
}

#[test]
fn metadata_reports_expected_hash_and_size() {
    let payload = b"test firmware bytes";
    let mut hasher = Sha256::new();
    hasher.update(payload);
    let digest = hasher.finalize();

    let metadata = build_firmware_metadata(payload.len(), &digest);

    assert_eq!(metadata.size, payload.len() as u64);
    assert_eq!(metadata.sha256, hex_encode(&digest));
    assert!(metadata.uploaded_at.is_some());
    assert!(!metadata.staged);
}

#[test]
fn upload_records_known_digest() {
    let store = NvsStore::new();
    let mut state = AppState::from_store(&store);

    let info = process_firmware_upload(&mut state, b"test firmware bytes").unwrap();
    assert_eq!(
        info.sha256,
        "70be8195cc9291ccbe96a5866b53ecbaa70253a929a2d2e2c592d43b88ce7b80"
    );
    assert_eq!(info.size, 19);
    assert!(state.firmware.is_some());
    assert_eq!(state.firmware.as_ref().unwrap().sha256, info.sha256);
}

#[test]
fn upload_rejects_empty_and_oversized_images() {
    let store = NvsStore::new();
    let mut state = AppState::from_store(&store);

    assert_eq!(
        process_firmware_upload(&mut state, b"").unwrap_err(),
        FirmwareValidationError::Empty
    );
    assert!(state.firmware.is_none());

    let oversized = vec![0u8; MAX_FIRMWARE_SIZE + 1];
    assert_eq!(
        process_firmware_upload(&mut state, &oversized).unwrap_err(),
        FirmwareValidationError::TooLarge(MAX_FIRMWARE_SIZE + 1)
    );
    assert!(state.firmware.is_none());
}

#[test]
fn validation_errors_have_messages() {
    assert_eq!(
        FirmwareValidationError::Empty.message(),
        "Firmware image cannot be empty"
    );
    assert_eq!(
        FirmwareValidationError::TooLarge(3_000_000).message(),
        "Firmware image exceeds 2 MiB limit"
    );
}

#[test]
fn octet_stream_content_types_are_recognized() {
    assert!(is_octet_stream(Some("application/octet-stream")));
    assert!(is_octet_stream(Some("Application/OCTET-Stream")));
    assert!(is_octet_stream(Some(
        "application/octet-stream; charset=binary"
    )));
    assert!(is_octet_stream(Some("  application/octet-stream  ")));
    assert!(!is_octet_stream(Some("text/plain")));
    assert!(!is_octet_stream(Some("application/json")));
    assert!(!is_octet_stream(None));
}
