use vstd::prelude::*;

use crate::encode::{ascii_no_nul, encode_nt_ascii, encode_wide, is_narrow_char, no_nul, nt_bytes_of, wide_of};
use crate::paths::{config_wf, get_shared_library_paths, search_paths_of, BuildConfig};
use crate::project_id::{canonical_of, lemma_canonical_ascii, ProjectId};

verus! {

/// The SDK ABI version tag stamped on every descriptor.
#[derive(Clone, Copy, PartialEq, Eq, Structural, Debug)]
pub enum SdkVersion {
    Api,
}

/// The SDK feature a descriptor requests; this design targets the
/// super-sampling feature only.
#[derive(Clone, Copy, PartialEq, Eq, Structural, Debug)]
pub enum FeatureId {
    SuperSampling,
}

/// How the application identifies itself to the SDK; this design uses
/// the project-identifier form only.
#[derive(Clone, Copy, PartialEq, Eq, Structural, Debug)]
pub enum IdentifierType {
    ProjectId,
}

/// The engine the application declares to the SDK.
#[derive(Clone, Copy, PartialEq, Eq, Structural, Debug)]
pub enum EngineType {
    Custom,
}

/// The least severity the SDK is asked to log.
#[derive(Clone, Copy, PartialEq, Eq, Structural, Debug)]
pub enum LoggingLevel {
    Off,
    On,
    Verbose,
}

/// The logging policy handed to the SDK. The descriptor builder fixes
/// it to "no callback, logging off, leave other sinks alone"; it is
/// kept as a record so a later configuration point can widen it.
#[derive(Clone, Copy, PartialEq, Eq, Structural, Debug)]
pub struct LoggingInfo {
    pub callback_enabled: bool,
    pub minimum_logging_level: LoggingLevel,
    pub disable_other_logging_sinks: bool,
}

/// The ordered search-path list, each entry wide-encoded and
/// nul-terminated.
pub struct PathListInfo {
    pub paths: Vec<Vec<u32>>,
}

/// The part of the descriptor shared by every feature: the
/// search-path list and the logging policy.
pub struct FeatureCommonInfo {
    pub path_list_info: PathListInfo,
    pub logging_info: LoggingInfo,
}

/// The application identity as the SDK receives it: the canonical
/// identifier rendering and the engine version, both narrow-encoded
/// and nul-terminated.
pub struct ProjectIdDescription {
    pub project_id: Vec<u8>,
    pub engine_type: EngineType,
    pub engine_version: Vec<u8>,
}

/// The tagged identifier union of the descriptor, fixed to the
/// project-identifier form.
pub struct ApplicationIdentifier {
    pub identifier_type: IdentifierType,
    pub project_desc: ProjectIdDescription,
}

/// The self-describing record handed across the SDK boundary during
/// the init handshake and update checks.
pub struct FeatureDiscoveryInfo {
    pub sdk_version: SdkVersion,
    pub feature_id: FeatureId,
    pub identifier: ApplicationIdentifier,
    pub application_data_path: Vec<u32>,
    pub feature_info: FeatureCommonInfo,
}

/// The embedding library's own release version, declared to the SDK
/// as the engine version.
pub open spec fn engine_version_spec() -> Seq<char> {
    "0.1.0"@
}

pub fn engine_version() -> (s: &'static str)
    ensures
        s@ == engine_version_spec(),
{
    "0.1.0"
}

/// The logging policy the builder fixes for every descriptor.
pub open spec fn default_logging_info() -> LoggingInfo {
    LoggingInfo {
        callback_enabled: false,
        minimum_logging_level: LoggingLevel::Off,
        disable_other_logging_sinks: false,
    }
}

/// Pins every field of a built descriptor to the identity, data path
/// and build configuration it was built from.
pub open spec fn feature_info_matches(
    info: FeatureDiscoveryInfo,
    id: Seq<u8>,
    data_path: Seq<char>,
    config: BuildConfig,
) -> bool {
    &&& info.sdk_version == SdkVersion::Api
    &&& info.feature_id == FeatureId::SuperSampling
    &&& info.identifier.identifier_type == IdentifierType::ProjectId
    &&& info.identifier.project_desc.engine_type == EngineType::Custom
    &&& info.identifier.project_desc.project_id@ == nt_bytes_of(canonical_of(id))
    &&& info.identifier.project_desc.engine_version@ == nt_bytes_of(engine_version_spec())
    &&& info.application_data_path@ == wide_of(data_path)
    &&& info.feature_info.path_list_info.paths@.len() == search_paths_of(config).len()
    &&& forall|i: int| 0 <= i < info.feature_info.path_list_info.paths@.len()
        ==> #[trigger] info.feature_info.path_list_info.paths@[i]@ == wide_of(
        search_paths_of(config)[i],
    )
    &&& info.feature_info.logging_info == default_logging_info()
}

/// A nul-terminated narrow buffer: non-empty, ends in the terminator,
/// and holds the terminator nowhere else.
pub open spec fn nt_narrow_wf(b: Seq<u8>) -> bool {
    &&& b.len() >= 1
    &&& b.last() == 0u8
    &&& forall|i: int| 0 <= i < b.len() - 1 ==> b[i] != 0u8
}

/// A nul-terminated wide buffer: non-empty, ends in the terminator,
/// and holds the terminator nowhere else.
pub open spec fn nt_wide_wf(b: Seq<u32>) -> bool {
    &&& b.len() >= 1
    &&& b.last() == 0u32
    &&& forall|i: int| 0 <= i < b.len() - 1 ==> b[i] != 0u32
}

/// Well-formedness of a descriptor: every string field is non-empty,
/// nul-terminated and free of interior terminators, so each is
/// readable in full by the SDK for as long as the record itself lives.
pub open spec fn feature_info_wf(info: FeatureDiscoveryInfo) -> bool {
    &&& nt_narrow_wf(info.identifier.project_desc.project_id@)
    &&& nt_narrow_wf(info.identifier.project_desc.engine_version@)
    &&& nt_wide_wf(info.application_data_path@)
    &&& forall|i: int| 0 <= i < info.feature_info.path_list_info.paths@.len() ==> nt_wide_wf(
        #[trigger] info.feature_info.path_list_info.paths@[i]@,
    )
}

/// The narrow encoding of a nul-free ASCII string is well formed.
pub proof fn lemma_nt_bytes_wf(s: Seq<char>)
    requires
        ascii_no_nul(s),
    ensures
        nt_narrow_wf(nt_bytes_of(s)),
{
    let b = nt_bytes_of(s);
    assert(b.last() == 0u8);
    assert forall|i: int| 0 <= i < b.len() - 1 implies b[i] != 0u8 by {
        assert(b[i] == (s[i] as u32) as u8);
        assert(is_narrow_char(s[i]));
    }
}

/// The wide encoding of a nul-free string is well formed.
pub proof fn lemma_wide_wf(s: Seq<char>)
    requires
        no_nul(s),
    ensures
        nt_wide_wf(wide_of(s)),
{
    let b = wide_of(s);
    assert(b.last() == 0u32);
    assert forall|i: int| 0 <= i < b.len() - 1 implies b[i] != 0u32 by {
        assert(b[i] == s[i] as u32);
    }
}

/// Every descriptor the builder can produce is well formed: its
/// identifier, engine-version, data-path and search-path buffers are
/// all non-empty, nul-terminated and free of interior terminators.
pub proof fn lemma_built_info_wf(
    info: FeatureDiscoveryInfo,
    id: Seq<u8>,
    data_path: Seq<char>,
    config: BuildConfig,
)
    requires
        feature_info_matches(info, id, data_path, config),
        no_nul(data_path),
        config_wf(config),
    ensures
        feature_info_wf(info),
{
    lemma_canonical_ascii(id);
    lemma_nt_bytes_wf(canonical_of(id));
    reveal_strlit("0.1.0");
    lemma_nt_bytes_wf(engine_version_spec());
    lemma_wide_wf(data_path);
    assert forall|i: int| 0 <= i < info.feature_info.path_list_info.paths@.len() implies nt_wide_wf(
        #[trigger] info.feature_info.path_list_info.paths@[i]@,
    ) by {
        reveal_strlit(".");
        crate::paths::lemma_path_entry_no_nul(config, i);
        lemma_wide_wf(search_paths_of(config)[i]);
    }
}

/// Builds the descriptor for an application identity: the canonical
/// identifier and the engine version narrow-encoded, the scratch-data
/// path wide-encoded, the search-path list from the build
/// configuration, and the fixed logging policy.
pub fn build_feature_info(project_id: &ProjectId, data_path: &str, config: &BuildConfig) -> (info:
    FeatureDiscoveryInfo)
    requires
        project_id.wf(),
        no_nul(data_path@),
        config_wf(*config),
    ensures
        feature_info_matches(info, project_id@, data_path@, *config),
        feature_info_wf(info),
{
    let id_string = project_id.to_canonical_string();
    proof {
        lemma_canonical_ascii(project_id@);
        reveal_strlit("0.1.0");
    }
    let id_bytes = encode_nt_ascii(id_string.as_str());
    let engine_version_bytes = encode_nt_ascii(engine_version());
    let application_data_path = encode_wide(data_path);
    let paths = get_shared_library_paths(config);
    let info = FeatureDiscoveryInfo {
        sdk_version: SdkVersion::Api,
        feature_id: FeatureId::SuperSampling,
        identifier: ApplicationIdentifier {
            identifier_type: IdentifierType::ProjectId,
            project_desc: ProjectIdDescription {
                project_id: id_bytes,
                engine_type: EngineType::Custom,
                engine_version: engine_version_bytes,
            },
        },
        application_data_path,
        feature_info: FeatureCommonInfo {
            path_list_info: PathListInfo { paths },
            logging_info: LoggingInfo {
                callback_enabled: false,
                minimum_logging_level: LoggingLevel::Off,
                disable_other_logging_sinks: false,
            },
        },
    };
    proof {
        lemma_built_info_wf(info, project_id@, data_path@, *config);
    }
    info
}

/// Builds a descriptor for the identity and hands a borrowed
/// reference to the caller-supplied continuation, so the descriptor
/// lives exactly as long as the continuation runs; returns the
/// continuation's result.
pub fn with_feature_info<T, F: FnOnce(&FeatureDiscoveryInfo) -> T>(
    project_id: &ProjectId,
    data_path: &str,
    config: &BuildConfig,
    callback: F,
) -> (r: T)
    requires
        project_id.wf(),
        no_nul(data_path@),
        config_wf(*config),
        forall|info: FeatureDiscoveryInfo|
            feature_info_matches(info, project_id@, data_path@, *config) && feature_info_wf(info)
                ==> call_requires(callback, (&info,)),
    ensures
        exists|info: FeatureDiscoveryInfo|
            feature_info_matches(info, project_id@, data_path@, *config) && feature_info_wf(info)
                && call_ensures(callback, (&info,), r),
{
    let info = build_feature_info(project_id, data_path, config);
    callback(&info)
}

} // verus!
