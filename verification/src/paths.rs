use vstd::prelude::*;

use crate::encode::{encode_wide, no_nul, wide_of};

verus! {

/// The host operating system and architecture the build targets,
/// which selects the platform segment of the SDK library path.
#[derive(Clone, Copy, PartialEq, Eq, Structural, Debug)]
pub enum Platform {
    LinuxX8664,
    WindowsX8664,
}

/// The build profile, which selects the profile segment of the SDK
/// library path: the debug-overlay build uses the development
/// libraries, every other build the release libraries.
#[derive(Clone, Copy, PartialEq, Eq, Structural, Debug)]
pub enum Profile {
    Dev,
    Rel,
}

/// Build-time configuration of the search-path list: an optional SDK
/// root override, and the platform and profile resolved at build time.
pub struct BuildConfig {
    pub sdk_root: Option<String>,
    pub platform: Platform,
    pub profile: Profile,
}

pub open spec fn platform_name(p: Platform) -> Seq<char> {
    match p {
        Platform::LinuxX8664 => "Linux_x86_64"@,
        Platform::WindowsX8664 => "Windows_x86_64"@,
    }
}

pub open spec fn profile_name(p: Profile) -> Seq<char> {
    match p {
        Profile::Dev => "dev"@,
        Profile::Rel => "rel"@,
    }
}

/// The current-directory entry that always heads the search-path list.
pub open spec fn current_dir_entry() -> Seq<char> {
    "."@
}

/// The SDK-provided library location under a root override:
/// `<root>/lib/<platform>/<profile>`.
pub open spec fn sdk_library_path_of(root: Seq<char>, platform: Platform, profile: Profile) -> Seq<
    char,
> {
    root + "/lib/"@ + platform_name(platform) + "/"@ + profile_name(profile)
}

/// The search-path list for a build configuration: the current
/// directory first, then the SDK library location exactly when a root
/// override was supplied.
pub open spec fn search_paths_of(config: BuildConfig) -> Seq<Seq<char>> {
    match config.sdk_root {
        Option::None => seq![current_dir_entry()],
        Option::Some(root) => seq![
            current_dir_entry(),
            sdk_library_path_of(root@, config.platform, config.profile),
        ],
    }
}

pub fn platform_str(platform: &Platform) -> (s: &'static str)
    ensures
        s@ == platform_name(*platform),
{
    match platform {
        Platform::LinuxX8664 => "Linux_x86_64",
        Platform::WindowsX8664 => "Windows_x86_64",
    }
}

pub fn profile_str(profile: &Profile) -> (s: &'static str)
    ensures
        s@ == profile_name(*profile),
{
    match profile {
        Profile::Dev => "dev",
        Profile::Rel => "rel",
    }
}

/// Renders the SDK library location under a root override.
pub fn sdk_library_path(root: &str, platform: &Platform, profile: &Profile) -> (s: String)
    ensures
        s@ == sdk_library_path_of(root@, *platform, *profile),
{
    let mut s = String::from_str(root);
    s.append("/lib/");
    s.append(platform_str(platform));
    s.append("/");
    s.append(profile_str(profile));
    s
}

/// No character of a platform name is nul.
pub proof fn lemma_platform_name_no_nul(platform: Platform)
    ensures
        no_nul(platform_name(platform)),
{
    reveal_strlit("Linux_x86_64");
    reveal_strlit("Windows_x86_64");
}

/// No character of a profile name is nul.
pub proof fn lemma_profile_name_no_nul(profile: Profile)
    ensures
        no_nul(profile_name(profile)),
{
    reveal_strlit("dev");
    reveal_strlit("rel");
}

/// No character of an SDK library path is nul, provided the root
/// override itself holds none.
pub proof fn lemma_sdk_library_path_no_nul(root: Seq<char>, platform: Platform, profile: Profile)
    requires
        no_nul(root),
    ensures
        no_nul(sdk_library_path_of(root, platform, profile)),
{
    reveal_strlit("/lib/");
    reveal_strlit("/");
    lemma_platform_name_no_nul(platform);
    lemma_profile_name_no_nul(profile);
}

/// No character of any search-path entry is nul, provided the root
/// override holds none.
pub proof fn lemma_path_entry_no_nul(config: BuildConfig, i: int)
    requires
        config_wf(config),
        0 <= i < search_paths_of(config).len(),
    ensures
        no_nul(search_paths_of(config)[i]),
{
    reveal_strlit(".");
    if i == 1 {
        let root = config.sdk_root->Some_0;
        lemma_sdk_library_path_no_nul(root@, config.platform, config.profile);
    }
}

/// A root override is acceptable when it holds no nul character, so
/// that the path built from it can be wide-encoded intact.
pub open spec fn config_wf(config: BuildConfig) -> bool {
    config.sdk_root matches Option::Some(root) ==> no_nul(root@)
}

/// Builds the ordered list of filesystem locations the SDK consults
/// for its shared components, each entry wide-encoded and
/// nul-terminated. The current directory always comes first; the SDK
/// library location follows exactly when a root override was supplied.
pub fn get_shared_library_paths(config: &BuildConfig) -> (r: Vec<Vec<u32>>)
    requires
        config_wf(*config),
    ensures
        r@.len() == search_paths_of(*config).len(),
        forall|i: int| 0 <= i < r@.len() ==> #[trigger] r@[i]@ == wide_of(
            search_paths_of(*config)[i],
        ),
        1 <= r@.len() <= 2,
        r@[0]@ == wide_of(current_dir_entry()),
        config.sdk_root is Some <==> r@.len() == 2,
{
    proof {
        reveal_strlit(".");
    }
    let mut r: Vec<Vec<u32>> = Vec::new();
    r.push(encode_wide("."));
    match &config.sdk_root {
        Option::None => {},
        Option::Some(root) => {
            let path = sdk_library_path(root.as_str(), &config.platform, &config.profile);
            proof {
                lemma_sdk_library_path_no_nul(root@, config.platform, config.profile);
            }
            r.push(encode_wide(path.as_str()));
        },
    }
    r
}

} // verus!
