//! The operating systems that the backend tells apart, and which of them
//! may run pipelines.

use vstd::prelude::*;
use crate::text::same_text;

verus! {

/// The operating system the process runs on.
#[derive(Clone, Copy, Debug, PartialEq, Eq, Structural)]
pub enum Platform {
    Linux,
    MacOs,
    Windows,
    /// Any other system.
    Other,
}

impl Platform {
    /// Whether pipelines may run on this platform.
    pub open spec fn supports_pipelines(self) -> bool {
        self == Platform::Linux || self == Platform::MacOs || self == Platform::Windows
    }

    /// The platform that an operating system's name stands for.
    pub open spec fn named(os_name: Seq<char>) -> Platform {
        if os_name == "linux"@ {
            Platform::Linux
        } else if os_name == "macos"@ {
            Platform::MacOs
        } else if os_name == "windows"@ {
            Platform::Windows
        } else {
            Platform::Other
        }
    }

    /// The platform that an operating system's name stands for: `linux`,
    /// `macos` and `windows` are known, every other name is
    /// [`Platform::Other`].
    pub fn from_os_name(os_name: &str) -> (platform: Platform)
        ensures
            platform == Platform::named(os_name@),
    {
        if same_text(os_name, "linux") {
            Platform::Linux
        } else if same_text(os_name, "macos") {
            Platform::MacOs
        } else if same_text(os_name, "windows") {
            Platform::Windows
        } else {
            Platform::Other
        }
    }
}

/// Capability probe: true exactly on the three supported desktop platforms.
pub fn check_can_run_pipelines(platform: Platform) -> (can: bool)
    ensures
        can == platform.supports_pipelines(),
{
    match platform {
        Platform::Linux | Platform::MacOs | Platform::Windows => true,
        Platform::Other => false,
    }
}

} // verus!
