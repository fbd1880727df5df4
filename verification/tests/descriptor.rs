use dlss_sdk::encode::{encode_nt_ascii, encode_wide};
use dlss_sdk::feature_info::{
    build_feature_info, engine_version, with_feature_info, EngineType, FeatureId, IdentifierType,
    LoggingLevel, SdkVersion,
};
use dlss_sdk::paths::{get_shared_library_paths, sdk_library_path, BuildConfig, Platform, Profile};
use dlss_sdk::project_id::ProjectId;

fn fixed_id() -> ProjectId {
    ProjectId::from_bytes(vec![0x11u8; 16]).unwrap()
}

fn plain_config() -> BuildConfig {
    BuildConfig { sdk_root: None, platform: Platform::LinuxX8664, profile: Profile::Rel }
}

#[test]
fn canonical_string_of_fixed_identity() {
    let id = fixed_id();
    assert_eq!(id.to_canonical_string(), "11111111-1111-1111-1111-111111111111");
}

#[test]
fn canonical_string_mixed_bytes() {
    let bytes: Vec<u8> = vec![
        0x00, 0x01, 0x23, 0x45, 0x67, 0x89, 0xab, 0xcd, 0xef, 0xfe, 0xdc, 0xba, 0x98, 0x76, 0x54,
        0x32,
    ];
    let id = ProjectId::from_bytes(bytes).unwrap();
    assert_eq!(id.to_canonical_string(), "00012345-6789-abcd-effe-dcba98765432");
}

#[test]
fn canonical_string_agrees_with_uuid_crate() {
    let bytes: [u8; 16] = [
        0x6b, 0xa7, 0xb8, 0x10, 0x9d, 0xad, 0x11, 0xd1, 0x80, 0xb4, 0x00, 0xc0, 0x4f, 0xd4, 0x30,
        0xc8,
    ];
    let id = ProjectId::from_bytes(bytes.to_vec()).unwrap();
    let reference = uuid::Uuid::from_bytes(bytes);
    assert_eq!(id.to_canonical_string(), reference.to_string());
}

#[test]
fn from_bytes_refuses_wrong_length() {
    assert!(ProjectId::from_bytes(vec![0u8; 15]).is_none());
    assert!(ProjectId::from_bytes(vec![0u8; 17]).is_none());
    assert!(ProjectId::from_bytes(Vec::new()).is_none());
    assert!(ProjectId::from_bytes(vec![0u8; 16]).is_some());
}

#[test]
fn narrow_encoding_appends_one_terminator() {
    assert_eq!(encode_nt_ascii("ab"), vec![b'a', b'b', 0u8]);
    assert_eq!(encode_nt_ascii(""), vec![0u8]);
}

#[test]
fn wide_encoding_appends_one_terminator() {
    assert_eq!(encode_wide("."), vec![46u32, 0u32]);
    assert_eq!(encode_wide(""), vec![0u32]);
}

#[test]
fn search_paths_start_with_current_directory() {
    let paths = get_shared_library_paths(&plain_config());
    assert_eq!(paths.len(), 1);
    assert_eq!(paths[0], vec![b'.' as u32, 0u32]);
}

#[test]
fn search_paths_add_sdk_location_under_override() {
    let config = BuildConfig {
        sdk_root: Some(String::from("/opt/sdk")),
        platform: Platform::LinuxX8664,
        profile: Profile::Rel,
    };
    let paths = get_shared_library_paths(&config);
    assert_eq!(paths.len(), 2);
    assert_eq!(paths[0], vec![b'.' as u32, 0u32]);
    let expected: Vec<u32> = "/opt/sdk/lib/Linux_x86_64/rel"
        .chars()
        .map(|c| c as u32)
        .chain([0u32])
        .collect();
    assert_eq!(paths[1], expected);
}

#[test]
fn sdk_library_path_per_platform_and_profile() {
    assert_eq!(
        sdk_library_path("/r", &Platform::LinuxX8664, &Profile::Rel),
        "/r/lib/Linux_x86_64/rel"
    );
    assert_eq!(
        sdk_library_path("/r", &Platform::LinuxX8664, &Profile::Dev),
        "/r/lib/Linux_x86_64/dev"
    );
    assert_eq!(
        sdk_library_path("/r", &Platform::WindowsX8664, &Profile::Rel),
        "/r/lib/Windows_x86_64/rel"
    );
    assert_eq!(
        sdk_library_path("/r", &Platform::WindowsX8664, &Profile::Dev),
        "/r/lib/Windows_x86_64/dev"
    );
}

#[test]
fn descriptor_fields_are_encoded_and_terminated() {
    let id = fixed_id();
    let info = build_feature_info(&id, "/tmp", &plain_config());
    assert_eq!(info.sdk_version, SdkVersion::Api);
    assert_eq!(info.feature_id, FeatureId::SuperSampling);
    assert_eq!(info.identifier.identifier_type, IdentifierType::ProjectId);
    assert_eq!(info.identifier.project_desc.engine_type, EngineType::Custom);

    let mut expected_id: Vec<u8> = b"11111111-1111-1111-1111-111111111111".to_vec();
    expected_id.push(0);
    assert_eq!(info.identifier.project_desc.project_id, expected_id);

    let mut expected_version: Vec<u8> = engine_version().as_bytes().to_vec();
    expected_version.push(0);
    assert_eq!(info.identifier.project_desc.engine_version, expected_version);

    let expected_path: Vec<u32> = "/tmp".chars().map(|c| c as u32).chain([0u32]).collect();
    assert_eq!(info.application_data_path, expected_path);

    assert_eq!(info.feature_info.path_list_info.paths.len(), 1);
    assert_eq!(info.feature_info.path_list_info.paths[0], vec![b'.' as u32, 0u32]);

    assert!(!info.feature_info.logging_info.callback_enabled);
    assert_eq!(info.feature_info.logging_info.minimum_logging_level, LoggingLevel::Off);
    assert!(!info.feature_info.logging_info.disable_other_logging_sinks);
}

#[test]
fn descriptor_with_empty_data_path_still_terminated() {
    let info = build_feature_info(&fixed_id(), "", &plain_config());
    assert_eq!(info.application_data_path, vec![0u32]);
}

#[test]
fn continuation_sees_descriptor_and_result_propagates() {
    let id = fixed_id();
    let n = with_feature_info(&id, "/tmp", &plain_config(), |info| {
        assert_eq!(info.identifier.project_desc.project_id.last(), Some(&0u8));
        info.feature_info.path_list_info.paths.len()
    });
    assert_eq!(n, 1);
}

#[test]
fn utf16_reencoding_passes_basic_plane_through() {
    let wide = dlss_sdk::encode::encode_wide("ab");
    let units = dlss_sdk::encode::wide_to_utf16(&wide);
    assert_eq!(units, vec![0x61u16, 0x62u16, 0u16]);
}

#[test]
fn utf16_reencoding_pairs_supplementary_points() {
    let wide = dlss_sdk::encode::encode_wide("a\u{1F600}");
    let units = dlss_sdk::encode::wide_to_utf16(&wide);
    assert_eq!(units, vec![0x61u16, 0xD83Du16, 0xDE00u16, 0u16]);
}
