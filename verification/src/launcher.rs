use vstd::prelude::*;

use crate::messages::prefixed_message;

verus! {

/// The operating-system family the facade runs on. It decides which
/// launcher program is asked to open a file with its default handler.
#[derive(Clone, Copy)]
pub enum Platform {
    Windows,
    MacOs,
    Linux,
}

/// The program and arguments that a caller spawns, detached, to open a
/// file with the platform's default handler.
pub struct LauncherInvocation {
    pub program: String,
    pub args: Vec<String>,
}

/// The invocation is the one this platform uses to open `path`.
pub open spec fn invocation_for(platform: Platform, path: Seq<char>, inv: LauncherInvocation) -> bool {
    match platform {
        Platform::Windows => inv.program@ == "cmd"@ && inv.args@.len() == 4 && inv.args@[0]@
            == "/C"@ && inv.args@[1]@ == "start"@ && inv.args@[2]@ == ""@ && inv.args@[3]@ == path,
        Platform::MacOs => inv.program@ == "open"@ && inv.args@.len() == 1 && inv.args@[0]@
            == path,
        Platform::Linux => inv.program@ == "xdg-open"@ && inv.args@.len() == 1 && inv.args@[0]@
            == path,
    }
}

/// Chooses the launcher invocation that opens `path` with the default
/// handler of the given platform: a Windows-style shell launch, a
/// macOS-style launch, or a Linux-style launch.
pub fn open_file_invocation(platform: Platform, path: &str) -> (inv: LauncherInvocation)
    ensures
        invocation_for(platform, path@, inv),
{
    match platform {
        Platform::Windows => {
            let mut args: Vec<String> = Vec::new();
            args.push(String::from_str("/C"));
            args.push(String::from_str("start"));
            args.push(String::from_str(""));
            args.push(String::from_str(path));
            LauncherInvocation { program: String::from_str("cmd"), args }
        },
        Platform::MacOs => {
            let mut args: Vec<String> = Vec::new();
            args.push(String::from_str(path));
            LauncherInvocation { program: String::from_str("open"), args }
        },
        Platform::Linux => {
            let mut args: Vec<String> = Vec::new();
            args.push(String::from_str(path));
            LauncherInvocation { program: String::from_str("xdg-open"), args }
        },
    }
}

/// The message reported when spawning the launcher failed.
pub open spec fn open_error_message(detail: Seq<char>) -> Seq<char> {
    "Failed to open file: "@ + detail
}

/// Maps the outcome of the launcher spawn into the facade's response:
/// success exactly when the spawn succeeded — the spawned handler's own
/// fate is invisible to the facade — and otherwise a non-empty,
/// descriptive message built from the spawn error.
pub fn open_file_outcome(spawn: Result<(), String>) -> (r: Result<(), String>)
    ensures
        r is Ok <==> spawn is Ok,
        spawn matches Err(detail) ==> r matches Err(m) && m@ == open_error_message(detail@),
        r matches Err(m) ==> m@.len() > 0,
{
    match spawn {
        Ok(()) => Ok(()),
        Err(detail) => {
            proof {
                reveal_strlit("Failed to open file: ");
            }
            Err(prefixed_message("Failed to open file: ", detail.as_str()))
        },
    }
}

} // verus!
