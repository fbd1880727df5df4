use vstd::prelude::*;

verus! {

/// The outcome of one native SDK or device call, as the caller sees
/// it: success, or a failure carrying the native status code.
#[derive(Clone, Copy, PartialEq, Eq, Structural, Debug)]
pub enum CallStatus {
    Success,
    Failure(u32),
}

/// The errors a session operation can return to its caller.
#[derive(Clone, Copy, PartialEq, Eq, Structural, Debug)]
pub enum DlssError {
    /// A native SDK entry point reported the carried status code.
    Ngx(u32),
    /// The capability check reported the feature unavailable on this
    /// device and driver.
    FeatureNotSupported,
    /// The supplied device is not backed by the expected graphics
    /// backend.
    BackendMismatch,
}

/// A fault on the teardown path. No recovered state exists once
/// teardown has begun, so the caller must treat any of these as a
/// fatal process condition, not as a recoverable error.
#[derive(Clone, Copy, PartialEq, Eq, Structural, Debug)]
pub enum TeardownFault {
    /// The device failed to reach the idle state.
    WaitIdleFailed(u32),
    /// The capability handle could not be destroyed.
    DestroyParametersFailed(u32),
    /// The SDK could not be shut down for the device.
    ShutdownFailed(u32),
}

/// The native handle set extracted from a device of the expected
/// backend: the instance, physical-device and logical-device handles,
/// and the two procedure-address-lookup entry points, each held as
/// its raw handle value.
#[derive(Clone, Copy, PartialEq, Eq, Structural, Debug)]
pub struct BackendDeviceView {
    pub instance: u64,
    pub physical_device: u64,
    pub device: u64,
    pub get_instance_proc_addr: u64,
    pub get_device_proc_addr: u64,
}

/// One native call the session issues, in the order the log records
/// them. The driver that owns the real device performs each call and
/// reports its outcome back as a `CallStatus`.
#[derive(Clone, Copy, PartialEq, Eq, Structural, Debug)]
pub enum SdkCall {
    /// The fire-and-forget update-check notification.
    UpdateFeature,
    /// The device-scoped init handshake, carrying the raw handles it
    /// hands the SDK.
    InitWithProjectId { instance: u64, physical_device: u64, device: u64 },
    /// The request for the capability/parameter handle.
    GetCapabilityParameters,
    /// The query of the feature-available flag on a capability handle.
    GetSupportFlag { parameters: u64 },
    /// The query of the VRAM statistic on a capability handle.
    GetStats { parameters: u64 },
    /// The destruction of a capability handle.
    DestroyParameters { parameters: u64 },
    /// The blocking wait for the device to become idle.
    WaitIdle { device: u64 },
    /// The device-scoped SDK shutdown.
    Shutdown { device: u64 },
}

/// What the SDK answered, or would answer, during one construction
/// attempt: the init-handshake status, the capability-handle request
/// and the handle it produced, the support-flag query and the flag it
/// read, and the status of the unwinding handle destruction should
/// construction have to fail after the handle was acquired. Responses
/// to calls that construction never reaches are ignored.
#[derive(Clone, Copy, PartialEq, Eq, Structural, Debug)]
pub struct SdkResponses {
    pub init_status: CallStatus,
    pub get_parameters_status: CallStatus,
    pub parameters_handle: u64,
    pub support_query_status: CallStatus,
    pub supported_flag: u32,
    pub destroy_status: CallStatus,
}

/// What the device and SDK answered during one release: the idle-wait
/// status, the handle destruction status and the shutdown status.
#[derive(Clone, Copy, PartialEq, Eq, Structural, Debug)]
pub struct ReleaseResponses {
    pub wait_idle_status: CallStatus,
    pub destroy_status: CallStatus,
    pub shutdown_status: CallStatus,
}

/// The SDK promises a usable handle whenever the capability-handle
/// request succeeds; a mock must promise the same.
pub open spec fn responses_wf(responses: SdkResponses) -> bool {
    responses.get_parameters_status is Success ==> responses.parameters_handle != 0
}

/// The error that replaces a construction failure after the
/// capability handle was already acquired: the unwinding destruction
/// runs first, and its own failure takes precedence.
pub open spec fn unwind_error(destroy: CallStatus, base: DlssError) -> DlssError {
    match destroy {
        CallStatus::Success => base,
        CallStatus::Failure(code) => DlssError::Ngx(code),
    }
}

/// The error construction returns for a device view and a set of SDK
/// responses; `None` means construction succeeds.
pub open spec fn create_error(view: Option<BackendDeviceView>, responses: SdkResponses) -> Option<
    DlssError,
> {
    match view {
        Option::None => Option::Some(DlssError::BackendMismatch),
        Option::Some(_) => match responses.init_status {
            CallStatus::Failure(code) => Option::Some(DlssError::Ngx(code)),
            CallStatus::Success => match responses.get_parameters_status {
                CallStatus::Failure(code) => Option::Some(DlssError::Ngx(code)),
                CallStatus::Success => match responses.support_query_status {
                    CallStatus::Failure(code) => Option::Some(
                        unwind_error(responses.destroy_status, DlssError::Ngx(code)),
                    ),
                    CallStatus::Success => if responses.supported_flag == 0 {
                        Option::Some(
                            unwind_error(responses.destroy_status, DlssError::FeatureNotSupported),
                        )
                    } else {
                        Option::None
                    },
                },
            },
        },
    }
}

/// The capability handle a successful construction stores; `None`
/// when construction fails.
pub open spec fn create_handle(view: Option<BackendDeviceView>, responses: SdkResponses) -> Option<
    u64,
> {
    if create_error(view, responses) is None {
        Option::Some(responses.parameters_handle)
    } else {
        Option::None
    }
}

/// The exact sequence of native calls construction issues for a
/// device view and a set of SDK responses: the update-check
/// notification always comes first; the handshake, the handle request
/// and the support query each happen only when everything before them
/// succeeded; the unwinding handle destruction happens exactly when
/// the handle was acquired and construction still fails.
pub open spec fn create_calls(view: Option<BackendDeviceView>, responses: SdkResponses) -> Seq<
    SdkCall,
> {
    match view {
        Option::None => seq![SdkCall::UpdateFeature],
        Option::Some(v) => {
            let init = SdkCall::InitWithProjectId {
                instance: v.instance,
                physical_device: v.physical_device,
                device: v.device,
            };
            match responses.init_status {
                CallStatus::Failure(_) => seq![SdkCall::UpdateFeature, init],
                CallStatus::Success => match responses.get_parameters_status {
                    CallStatus::Failure(_) => seq![
                        SdkCall::UpdateFeature,
                        init,
                        SdkCall::GetCapabilityParameters,
                    ],
                    CallStatus::Success => {
                        let handle = responses.parameters_handle;
                        let reached = seq![
                            SdkCall::UpdateFeature,
                            init,
                            SdkCall::GetCapabilityParameters,
                            SdkCall::GetSupportFlag { parameters: handle },
                        ];
                        if responses.support_query_status is Failure || responses.supported_flag
                            == 0 {
                            reached.push(SdkCall::DestroyParameters { parameters: handle })
                        } else {
                            reached
                        }
                    },
                },
            }
        },
    }
}

/// The exact sequence of native calls a release issues: the idle-wait
/// always comes first; the handle destruction follows only once the
/// device is idle; the device-scoped shutdown follows only once the
/// handle is destroyed. A step that fails ends the sequence, since no
/// later step may touch a resource in an unknown state.
pub open spec fn release_calls(parameters: u64, device: u64, responses: ReleaseResponses) -> Seq<
    SdkCall,
> {
    let wait = SdkCall::WaitIdle { device };
    let destroy = SdkCall::DestroyParameters { parameters };
    let shutdown = SdkCall::Shutdown { device };
    match responses.wait_idle_status {
        CallStatus::Failure(_) => seq![wait],
        CallStatus::Success => match responses.destroy_status {
            CallStatus::Failure(_) => seq![wait, destroy],
            CallStatus::Success => seq![wait, destroy, shutdown],
        },
    }
}

/// The fault a release reports; `None` when every step succeeded.
pub open spec fn release_fault(responses: ReleaseResponses) -> Option<TeardownFault> {
    match responses.wait_idle_status {
        CallStatus::Failure(code) => Option::Some(TeardownFault::WaitIdleFailed(code)),
        CallStatus::Success => match responses.destroy_status {
            CallStatus::Failure(code) => Option::Some(TeardownFault::DestroyParametersFailed(code)),
            CallStatus::Success => match responses.shutdown_status {
                CallStatus::Failure(code) => Option::Some(TeardownFault::ShutdownFailed(code)),
                CallStatus::Success => Option::None,
            },
        },
    }
}

/// A failed init handshake ends construction at once: the error is
/// the call-failure variant carrying the handshake's own status, no
/// capability handle is ever requested, queried or destroyed, and no
/// handle is stored.
pub proof fn lemma_init_failure_requests_no_handle(
    view: Option<BackendDeviceView>,
    responses: SdkResponses,
    code: u32,
)
    requires
        view is Some,
        responses.init_status == CallStatus::Failure(code),
    ensures
        create_error(view, responses) == Option::Some(DlssError::Ngx(code)),
        create_handle(view, responses) is None,
        forall|i: int| 0 <= i < create_calls(view, responses).len() ==> !(
        #[trigger] create_calls(view, responses)[i] is GetCapabilityParameters)
            && !(create_calls(view, responses)[i] is GetSupportFlag) && !(create_calls(
            view,
            responses,
        )[i] is DestroyParameters),
{
}

/// An unsupported feature ends construction with the dedicated error
/// variant, and the capability handle acquired on the way is not
/// leaked: the unwinding destruction of that exact handle stands in
/// the call sequence exactly once, as its last step.
pub proof fn lemma_unsupported_unwinds_once(view: Option<BackendDeviceView>, responses: SdkResponses)
    requires
        view is Some,
        responses.init_status is Success,
        responses.get_parameters_status is Success,
        responses.support_query_status is Success,
        responses.supported_flag == 0,
        responses.destroy_status is Success,
    ensures
        create_error(view, responses) == Option::Some(DlssError::FeatureNotSupported),
        create_handle(view, responses) is None,
        create_calls(view, responses).len() == 5,
        create_calls(view, responses).last() == (SdkCall::DestroyParameters {
            parameters: responses.parameters_handle,
        }),
        forall|i: int| 0 <= i < create_calls(view, responses).len() - 1 ==> !(
        #[trigger] create_calls(view, responses)[i] is DestroyParameters),
{
}

/// Construction is idempotent in effect but not cached: two
/// successful attempts each perform the full handshake of their own
/// (each call sequence holds its own init handshake, handle request
/// and support query), and each session stores the capability handle
/// its own handshake produced — nothing is shared between attempts.
pub proof fn lemma_create_independent(
    view1: Option<BackendDeviceView>,
    responses1: SdkResponses,
    view2: Option<BackendDeviceView>,
    responses2: SdkResponses,
)
    requires
        create_error(view1, responses1) is None,
        create_error(view2, responses2) is None,
    ensures
        create_handle(view1, responses1) == Option::Some(responses1.parameters_handle),
        create_handle(view2, responses2) == Option::Some(responses2.parameters_handle),
        create_calls(view1, responses1) =~= full_handshake(view1->Some_0, responses1),
        create_calls(view2, responses2) =~= full_handshake(view2->Some_0, responses2),
{
}

/// The call sequence of a successful construction: the update-check
/// notification, the init handshake against the attempt's own device
/// handles, the handle request, and the support query on the
/// attempt's own handle.
pub open spec fn full_handshake(v: BackendDeviceView, responses: SdkResponses) -> Seq<SdkCall> {
    seq![
        SdkCall::UpdateFeature,
        SdkCall::InitWithProjectId {
            instance: v.instance,
            physical_device: v.physical_device,
            device: v.device,
        },
        SdkCall::GetCapabilityParameters,
        SdkCall::GetSupportFlag { parameters: responses.parameters_handle },
    ]
}

/// Converts one native status into the library's error taxonomy.
pub fn check_ngx_result(status: CallStatus) -> (r: Result<(), DlssError>)
    ensures
        status is Success <==> r is Ok,
        status matches CallStatus::Failure(code) ==> r == Result::<(), DlssError>::Err(
            DlssError::Ngx(code),
        ),
{
    match status {
        CallStatus::Success => Ok(()),
        CallStatus::Failure(code) => Err(DlssError::Ngx(code)),
    }
}

/// A ready session: the exclusive owner of one capability handle,
/// bound to the device view it was initialized against. A value of
/// this type exists only between a successful construction and the
/// release that consumes it, so the handle is valid and non-null for
/// the whole lifetime of the value.
#[derive(Debug)]
pub struct DlssSdk {
    parameters: u64,
    device: BackendDeviceView,
}

impl DlssSdk {
    /// The capability handle the session owns.
    pub closed spec fn parameters_spec(&self) -> u64 {
        self.parameters
    }

    /// The device view the session was initialized against.
    pub closed spec fn device_spec(&self) -> BackendDeviceView {
        self.device
    }

    /// A ready session never holds a null capability handle.
    pub open spec fn wf(&self) -> bool {
        self.parameters_spec() != 0
    }

    pub fn parameters_handle(&self) -> (h: u64)
        ensures
            h == self.parameters_spec(),
    {
        self.parameters
    }

    pub fn device_view(&self) -> (v: BackendDeviceView)
        ensures
            v == self.device_spec(),
    {
        self.device
    }

    /// Decides one construction attempt from the extracted device
    /// view and the SDK's responses, and returns the session (or the
    /// error) together with the exact native calls the attempt
    /// issues, in order. A driver performs each call as the log
    /// dictates; a step's response is read only when every step
    /// before it succeeded. The update-check notification that heads
    /// the log is fire-and-forget: no response field exists for it,
    /// so its failure is unobservable by design.
    pub fn new(view: Option<BackendDeviceView>, responses: &SdkResponses) -> (r: (
        Result<DlssSdk, DlssError>,
        Vec<SdkCall>,
    ))
        requires
            responses_wf(*responses),
        ensures
            r.1@ == create_calls(view, *responses),
            r.0 is Ok <==> create_error(view, *responses) is None,
            create_error(view, *responses) matches Some(e) ==> r.0 == Result::<
                DlssSdk,
                DlssError,
            >::Err(e),
            r.0 matches Ok(sdk) ==> sdk.wf() && Option::Some(sdk.parameters_spec())
                == create_handle(view, *responses) && Option::Some(sdk.device_spec()) == view,
    {
        let mut calls: Vec<SdkCall> = Vec::new();
        calls.push(SdkCall::UpdateFeature);
        let v = match view {
            Option::None => {
                return (Err(DlssError::BackendMismatch), calls);
            },
            Option::Some(v) => v,
        };
        calls.push(
            SdkCall::InitWithProjectId {
                instance: v.instance,
                physical_device: v.physical_device,
                device: v.device,
            },
        );
        if let Err(e) = check_ngx_result(responses.init_status) {
            return (Err(e), calls);
        }
        calls.push(SdkCall::GetCapabilityParameters);
        if let Err(e) = check_ngx_result(responses.get_parameters_status) {
            return (Err(e), calls);
        }
        let parameters = responses.parameters_handle;
        calls.push(SdkCall::GetSupportFlag { parameters });
        let supported = match check_ngx_result(responses.support_query_status) {
            Ok(()) => responses.supported_flag,
            Err(e) => {
                calls.push(SdkCall::DestroyParameters { parameters });
                if let Err(destroy_error) = check_ngx_result(responses.destroy_status) {
                    return (Err(destroy_error), calls);
                }
                return (Err(e), calls);
            },
        };
        if supported == 0 {
            calls.push(SdkCall::DestroyParameters { parameters });
            if let Err(destroy_error) = check_ngx_result(responses.destroy_status) {
                return (Err(destroy_error), calls);
            }
            return (Err(DlssError::FeatureNotSupported), calls);
        }
        (Ok(DlssSdk { parameters, device: v }), calls)
    }

    /// Reads the number of bytes of VRAM the feature has allocated,
    /// from the SDK's answer to the statistics query on this
    /// session's capability handle. Returns the byte count exactly
    /// when the query succeeded, and the carried status as an error
    /// otherwise; also returns the one native call it issues.
    pub fn get_vram_allocated_bytes(&self, status: CallStatus, vram_allocated_bytes: u64) -> (r: (
        Result<u64, DlssError>,
        SdkCall,
    ))
        ensures
            r.1 == (SdkCall::GetStats { parameters: self.parameters_spec() }),
            status is Success ==> r.0 == Result::<u64, DlssError>::Ok(vram_allocated_bytes),
            status matches CallStatus::Failure(code) ==> r.0 == Result::<u64, DlssError>::Err(
                DlssError::Ngx(code),
            ),
    {
        let call = SdkCall::GetStats { parameters: self.parameters };
        match check_ngx_result(status) {
            Ok(()) => (Ok(vram_allocated_bytes), call),
            Err(e) => (Err(e), call),
        }
    }

    /// Releases the session: consumes it and decides the teardown
    /// sequence — idle-wait first, then the destruction of the
    /// capability handle, then the device-scoped shutdown, each step
    /// reached only once every step before it succeeded. Returns the
    /// calls issued and the fault, if any; the caller must treat a
    /// fault as fatal, since the resources are then in no known state.
    pub fn release(self, responses: &ReleaseResponses) -> (r: (Vec<SdkCall>, Option<
        TeardownFault,
    >))
        ensures
            r.0@ == release_calls(self.parameters_spec(), self.device_spec().device, *responses),
            r.1 == release_fault(*responses),
            (r.1 is None) <==> (responses.wait_idle_status is Success
                && responses.destroy_status is Success && responses.shutdown_status is Success),
            r.1 is None ==> r.0@ =~= seq![
                SdkCall::WaitIdle { device: self.device_spec().device },
                SdkCall::DestroyParameters { parameters: self.parameters_spec() },
                SdkCall::Shutdown { device: self.device_spec().device },
            ],
    {
        let mut calls: Vec<SdkCall> = Vec::new();
        calls.push(SdkCall::WaitIdle { device: self.device.device });
        if let CallStatus::Failure(code) = responses.wait_idle_status {
            return (calls, Some(TeardownFault::WaitIdleFailed(code)));
        }
        calls.push(SdkCall::DestroyParameters { parameters: self.parameters });
        if let CallStatus::Failure(code) = responses.destroy_status {
            return (calls, Some(TeardownFault::DestroyParametersFailed(code)));
        }
        calls.push(SdkCall::Shutdown { device: self.device.device });
        if let CallStatus::Failure(code) = responses.shutdown_status {
            return (calls, Some(TeardownFault::ShutdownFailed(code)));
        }
        (calls, None)
    }
}

} // verus!
