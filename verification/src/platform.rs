//! Names of the platforms that a terminal runs on.

use vstd::prelude::*;

verus! {

/// The operating system of the terminal.
#[derive(Debug, Clone, Copy, PartialEq, Eq, Structural)]
pub enum Platform {
    Android,
    Ios,
    MacOs,
    Windows,
    Linux,
    Unknown,
}

/// The name of a platform.
pub open spec fn platform_name(platform: Platform) -> Seq<char> {
    match platform {
        Platform::Android => "android"@,
        Platform::Ios => "ios"@,
        Platform::MacOs => "macos"@,
        Platform::Windows => "windows"@,
        Platform::Linux => "linux"@,
        Platform::Unknown => "unknown"@,
    }
}

/// The name of a platform as terminal registration knows it: iOS is not
/// among the systems it names.
pub open spec fn os_type_name(platform: Platform) -> Seq<char> {
    match platform {
        Platform::Ios => "unknown"@,
        _ => platform_name(platform),
    }
}

/// No platform has an empty name.
pub proof fn lemma_names_not_empty(platform: Platform)
    ensures
        platform_name(platform).len() > 0,
        os_type_name(platform).len() > 0,
{
    reveal_strlit("android");
    reveal_strlit("ios");
    reveal_strlit("macos");
    reveal_strlit("windows");
    reveal_strlit("linux");
    reveal_strlit("unknown");
}

/// The name of a platform.
pub fn get_platform(platform: Platform) -> (name: String)
    ensures
        name@ == platform_name(platform),
{
    match platform {
        Platform::Android => "android".to_owned(),
        Platform::Ios => "ios".to_owned(),
        Platform::MacOs => "macos".to_owned(),
        Platform::Windows => "windows".to_owned(),
        Platform::Linux => "linux".to_owned(),
        Platform::Unknown => "unknown".to_owned(),
    }
}

/// The name of a platform as terminal registration knows it.
pub fn get_os_type(platform: Platform) -> (name: String)
    ensures
        name@ == os_type_name(platform),
        name@.len() > 0,
{
    proof {
        lemma_names_not_empty(platform);
    }
    match platform {
        Platform::Ios => "unknown".to_owned(),
        _ => get_platform(platform),
    }
}

} // verus!
