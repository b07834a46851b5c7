use arc_cliwallet::acquisition::{
    creation_notice, decode_key, plan_acquisition, resolve_history_path, resolve_storage_path,
    AcquisitionPlan, KeySource, StartupError,
};

#[test]
fn existing_storage_always_loads() {
    assert_eq!(
        plan_acquisition(true, true),
        AcquisitionPlan::Load {
            source: KeySource::Supplied,
        }
    );
    assert_eq!(
        plan_acquisition(true, false),
        AcquisitionPlan::Load {
            source: KeySource::Prompted,
        }
    );
}

#[test]
fn missing_storage_always_creates() {
    assert_eq!(plan_acquisition(false, true), AcquisitionPlan::Create);
    assert_eq!(plan_acquisition(false, false), AcquisitionPlan::Create);
}

#[test]
fn decode_key_decodes_transport_text() {
    assert_eq!(decode_key("aGVsbG8=").unwrap(), b"hello".to_vec());
    assert_eq!(decode_key("").unwrap(), Vec::<u8>::new());
}

#[test]
fn decode_key_diagnoses_invalid_encoding() {
    let err = decode_key("not base64!").unwrap_err();
    match err {
        StartupError::InvalidKeyEncoding { message } => {
            assert!(message.starts_with("Key is in invalid format: "));
        }
        other => panic!("expected InvalidKeyEncoding, got {:?}", other),
    }
}

#[test]
fn creation_notice_shows_the_encoded_key() {
    let (key_line, save_line) = creation_notice(&b"hello".to_vec());
    assert_eq!(key_line, "Auth key: aGVsbG8=");
    assert_eq!(save_line, "Save it to be able to access your wallet");
}

#[test]
fn storage_path_prefers_the_explicit_flag() {
    assert_eq!(
        resolve_storage_path(Some("/tmp/w.json".to_string()), Some("/home/me".to_string())),
        Ok("/tmp/w.json".to_string())
    );
}

#[test]
fn storage_path_defaults_to_the_home_wallet_file() {
    assert_eq!(
        resolve_storage_path(None, Some("/home/me".to_string())),
        Ok("/home/me/.wallet.json".to_string())
    );
}

#[test]
fn storage_path_needs_a_home_directory() {
    assert_eq!(
        resolve_storage_path(None, None),
        Err(StartupError::MissingHomeDirectory)
    );
}

#[test]
fn history_path_resolution_is_best_effort() {
    assert_eq!(
        resolve_history_path(Some("/tmp/h".to_string()), None),
        Some("/tmp/h".to_string())
    );
    assert_eq!(
        resolve_history_path(None, Some("/home/me".to_string())),
        Some("/home/me/.arc_cliwallet_history".to_string())
    );
    assert_eq!(resolve_history_path(None, None), None);
}
