use dlss_sdk::sdk::{
    BackendDeviceView, CallStatus, DlssError, DlssSdk, ReleaseResponses, SdkCall, SdkResponses,
    TeardownFault,
};

fn mock_view() -> BackendDeviceView {
    BackendDeviceView {
        instance: 0x10,
        physical_device: 0x20,
        device: 0x30,
        get_instance_proc_addr: 0x40,
        get_device_proc_addr: 0x50,
    }
}

fn mock_responses(supported: bool) -> SdkResponses {
    SdkResponses {
        init_status: CallStatus::Success,
        get_parameters_status: CallStatus::Success,
        parameters_handle: 0x700,
        support_query_status: CallStatus::Success,
        supported_flag: if supported { 1 } else { 0 },
        destroy_status: CallStatus::Success,
    }
}

#[test]
fn create_with_feature_available_is_ready() {
    let (result, calls) = DlssSdk::new(Some(mock_view()), &mock_responses(true));
    let sdk = result.unwrap();
    assert_ne!(sdk.parameters_handle(), 0);
    assert_eq!(sdk.parameters_handle(), 0x700);
    assert_eq!(sdk.device_view(), mock_view());
    assert_eq!(
        calls,
        vec![
            SdkCall::UpdateFeature,
            SdkCall::InitWithProjectId { instance: 0x10, physical_device: 0x20, device: 0x30 },
            SdkCall::GetCapabilityParameters,
            SdkCall::GetSupportFlag { parameters: 0x700 },
        ]
    );
}

#[test]
fn create_with_feature_unavailable_fails_and_unwinds_once() {
    let (result, calls) = DlssSdk::new(Some(mock_view()), &mock_responses(false));
    assert_eq!(result.unwrap_err(), DlssError::FeatureNotSupported);
    let destroys = calls
        .iter()
        .filter(|c| matches!(c, SdkCall::DestroyParameters { .. }))
        .count();
    assert_eq!(destroys, 1);
    assert_eq!(calls.last(), Some(&SdkCall::DestroyParameters { parameters: 0x700 }));
}

#[test]
fn create_on_wrong_backend_fails_immediately() {
    let (result, calls) = DlssSdk::new(None, &mock_responses(true));
    assert_eq!(result.unwrap_err(), DlssError::BackendMismatch);
    assert_eq!(calls, vec![SdkCall::UpdateFeature]);
}

#[test]
fn init_failure_requests_no_capability_handle() {
    let mut responses = mock_responses(true);
    responses.init_status = CallStatus::Failure(0xbad1);
    let (result, calls) = DlssSdk::new(Some(mock_view()), &responses);
    assert_eq!(result.unwrap_err(), DlssError::Ngx(0xbad1));
    assert_eq!(calls.len(), 2);
    assert!(!calls.iter().any(|c| matches!(c, SdkCall::GetCapabilityParameters)));
    assert!(!calls.iter().any(|c| matches!(c, SdkCall::DestroyParameters { .. })));
}

#[test]
fn capability_fetch_failure_fails_without_unwind() {
    let mut responses = mock_responses(true);
    responses.get_parameters_status = CallStatus::Failure(0xbad2);
    let (result, calls) = DlssSdk::new(Some(mock_view()), &responses);
    assert_eq!(result.unwrap_err(), DlssError::Ngx(0xbad2));
    assert_eq!(calls.len(), 3);
    assert!(!calls.iter().any(|c| matches!(c, SdkCall::DestroyParameters { .. })));
}

#[test]
fn support_query_failure_unwinds_and_reports_query_error() {
    let mut responses = mock_responses(true);
    responses.support_query_status = CallStatus::Failure(0xbad3);
    let (result, calls) = DlssSdk::new(Some(mock_view()), &responses);
    assert_eq!(result.unwrap_err(), DlssError::Ngx(0xbad3));
    assert_eq!(calls.last(), Some(&SdkCall::DestroyParameters { parameters: 0x700 }));
}

#[test]
fn unwind_failure_takes_precedence() {
    let mut responses = mock_responses(true);
    responses.support_query_status = CallStatus::Failure(0xbad3);
    responses.destroy_status = CallStatus::Failure(0xbad4);
    let (result, _) = DlssSdk::new(Some(mock_view()), &responses);
    assert_eq!(result.unwrap_err(), DlssError::Ngx(0xbad4));
}

#[test]
fn two_creations_yield_independent_handles() {
    let mut first = mock_responses(true);
    first.parameters_handle = 0x701;
    let mut second = mock_responses(true);
    second.parameters_handle = 0x702;
    let (r1, calls1) = DlssSdk::new(Some(mock_view()), &first);
    let (r2, calls2) = DlssSdk::new(Some(mock_view()), &second);
    let sdk1 = r1.unwrap();
    let sdk2 = r2.unwrap();
    assert_ne!(sdk1.parameters_handle(), sdk2.parameters_handle());
    let inits1 = calls1
        .iter()
        .filter(|c| matches!(c, SdkCall::InitWithProjectId { .. }))
        .count();
    let inits2 = calls2
        .iter()
        .filter(|c| matches!(c, SdkCall::InitWithProjectId { .. }))
        .count();
    assert_eq!(inits1, 1);
    assert_eq!(inits2, 1);
}

#[test]
fn vram_query_returns_reported_bytes() {
    let (result, _) = DlssSdk::new(Some(mock_view()), &mock_responses(true));
    let sdk = result.unwrap();
    let (bytes, call) = sdk.get_vram_allocated_bytes(CallStatus::Success, 1048576);
    assert_eq!(bytes, Ok(1048576));
    assert_eq!(call, SdkCall::GetStats { parameters: 0x700 });
}

#[test]
fn vram_query_failure_carries_status() {
    let (result, _) = DlssSdk::new(Some(mock_view()), &mock_responses(true));
    let sdk = result.unwrap();
    let (bytes, _) = sdk.get_vram_allocated_bytes(CallStatus::Failure(0xbad5), 0);
    assert_eq!(bytes, Err(DlssError::Ngx(0xbad5)));
}

fn clean_release() -> ReleaseResponses {
    ReleaseResponses {
        wait_idle_status: CallStatus::Success,
        destroy_status: CallStatus::Success,
        shutdown_status: CallStatus::Success,
    }
}

#[test]
fn release_issues_wait_destroy_shutdown_in_order() {
    let (result, _) = DlssSdk::new(Some(mock_view()), &mock_responses(true));
    let sdk = result.unwrap();
    let (calls, fault) = sdk.release(&clean_release());
    assert!(fault.is_none());
    assert_eq!(
        calls,
        vec![
            SdkCall::WaitIdle { device: 0x30 },
            SdkCall::DestroyParameters { parameters: 0x700 },
            SdkCall::Shutdown { device: 0x30 },
        ]
    );
}

#[test]
fn release_stops_at_failed_idle_wait() {
    let (result, _) = DlssSdk::new(Some(mock_view()), &mock_responses(true));
    let sdk = result.unwrap();
    let mut responses = clean_release();
    responses.wait_idle_status = CallStatus::Failure(0xbad6);
    let (calls, fault) = sdk.release(&responses);
    assert_eq!(fault, Some(TeardownFault::WaitIdleFailed(0xbad6)));
    assert_eq!(calls, vec![SdkCall::WaitIdle { device: 0x30 }]);
}

#[test]
fn release_stops_at_failed_destroy() {
    let (result, _) = DlssSdk::new(Some(mock_view()), &mock_responses(true));
    let sdk = result.unwrap();
    let mut responses = clean_release();
    responses.destroy_status = CallStatus::Failure(0xbad7);
    let (calls, fault) = sdk.release(&responses);
    assert_eq!(fault, Some(TeardownFault::DestroyParametersFailed(0xbad7)));
    assert_eq!(calls.len(), 2);
    assert!(!calls.iter().any(|c| matches!(c, SdkCall::Shutdown { .. })));
}

#[test]
fn release_reports_failed_shutdown() {
    let (result, _) = DlssSdk::new(Some(mock_view()), &mock_responses(true));
    let sdk = result.unwrap();
    let mut responses = clean_release();
    responses.shutdown_status = CallStatus::Failure(0xbad8);
    let (calls, fault) = sdk.release(&responses);
    assert_eq!(fault, Some(TeardownFault::ShutdownFailed(0xbad8)));
    assert_eq!(calls.len(), 3);
}

#[test]
fn fixed_identity_scenario() {
    // identity fixed to "11111111-1111-1111-1111-111111111111"
    let identity =
        dlss_sdk::project_id::ProjectId::from_bytes(vec![0x11u8; 16]).unwrap();
    assert_eq!(identity.to_canonical_string(), "11111111-1111-1111-1111-111111111111");
    let config = dlss_sdk::paths::BuildConfig {
        sdk_root: None,
        platform: dlss_sdk::paths::Platform::LinuxX8664,
        profile: dlss_sdk::paths::Profile::Rel,
    };
    // the driver builds the descriptor for this identity, then performs
    // the handshake; the mock device reports the feature available
    let init_status = dlss_sdk::feature_info::with_feature_info(
        &identity,
        "/tmp",
        &config,
        |_info| CallStatus::Success,
    );
    let mut responses = mock_responses(true);
    responses.init_status = init_status;
    let (ready, _) = DlssSdk::new(Some(mock_view()), &responses);
    let session = ready.unwrap();
    assert_ne!(session.parameters_handle(), 0);

    // the same mock with the feature forced unavailable
    let (unavailable, _) = DlssSdk::new(Some(mock_view()), &mock_responses(false));
    assert_eq!(unavailable.unwrap_err(), DlssError::FeatureNotSupported);
}
