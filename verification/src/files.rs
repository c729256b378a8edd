//! Showing a directory in the system's file manager: which program does
//! it on which platform.

use vstd::prelude::*;
use vstd::string::StringExecFns;
use crate::platform::Platform;
use crate::process::{ProcessRequest, ProcessRequestView};

verus! {

/// The command that opens `directory` in the file manager.
///
/// On Linux that is `xdg-open` with the directory. On Windows it is the
/// command interpreter, told to start the explorer on the directory.
/// Other platforms have no such command.
pub open spec fn file_manager_command(platform: Platform, directory: Seq<char>) -> Option<
    ProcessRequestView,
> {
    match platform {
        Platform::Linux => Some(
            ProcessRequestView { program: "xdg-open"@, arguments: seq![directory] },
        ),
        Platform::Windows => Some(
            ProcessRequestView {
                program: "cmd"@,
                arguments: seq!["/C"@, "start"@, "explorer"@, directory],
            },
        ),
        _ => None,
    }
}

/// The command that opens `directory` in the file manager of `platform`,
/// if the platform has one.
pub fn open_directory_command(platform: Platform, directory: &String) -> (command: Option<
    ProcessRequest,
>)
    ensures
        command.deep_view() == file_manager_command(platform, directory@),
{
    match platform {
        Platform::Linux => {
            let mut arguments: Vec<String> = Vec::new();
            arguments.push(directory.clone());
            assert(arguments.deep_view() =~= seq![directory@]);
            Some(ProcessRequest { program: String::from_str("xdg-open"), arguments })
        },
        Platform::Windows => {
            let mut arguments: Vec<String> = Vec::new();
            arguments.push(String::from_str("/C"));
            arguments.push(String::from_str("start"));
            arguments.push(String::from_str("explorer"));
            arguments.push(directory.clone());
            assert(arguments.deep_view() =~= seq!["/C"@, "start"@, "explorer"@, directory@]);
            Some(ProcessRequest { program: String::from_str("cmd"), arguments })
        },
        _ => None,
    }
}

} // verus!
