//! The `open_in_browser` command endpoint: selects the platform-specific
//! launcher command for opening a URL in the default browser, and formats
//! the error surfaced when the launcher process cannot be spawned. Spawning
//! the detached process itself is left to the surrounding program.

use vstd::prelude::*;
use vstd::string::StringExecFns;

verus! {

/// The compilation target the shell runs on.
#[derive(Clone, Copy, Debug, PartialEq, Eq, Structural)]
pub enum Platform {
    Windows,
    MacOs,
    Linux,
}

/// A process invocation: a program and its argument list, to be spawned
/// detached by the surrounding program.
#[derive(Clone, Debug)]
pub struct LaunchCommand {
    pub program: String,
    pub args: Vec<String>,
}

/// The launcher program each platform uses to open a URL in the default
/// browser.
pub open spec fn opener_program(p: Platform) -> Seq<char> {
    match p {
        Platform::Windows => "cmd"@,
        Platform::MacOs => "open"@,
        Platform::Linux => "xdg-open"@,
    }
}

/// The launcher's argument list for a URL: Windows goes through a shell
/// `start` indirection, macOS and Linux hand the URL to the opener directly.
pub open spec fn opener_args(p: Platform, url: Seq<char>) -> Seq<Seq<char>> {
    match p {
        Platform::Windows => seq!["/c"@, "start"@, url],
        Platform::MacOs => seq![url],
        Platform::Linux => seq![url],
    }
}

/// The platform-specific command that opens `url` in the default browser.
/// The URL is passed through untouched, empty or unparseable ones included:
/// whether the opener can act on it is only ever observed by the spawned
/// process, never by the caller.
pub fn opener_invocation(p: Platform, url: &str) -> (c: LaunchCommand)
    ensures
        c.program@ == opener_program(p),
        c.args.deep_view() == opener_args(p, url@),
{
    match p {
        Platform::Windows => {
            let mut args: Vec<String> = Vec::new();
            args.push(String::from_str("/c"));
            args.push(String::from_str("start"));
            args.push(String::from_str(url));
            proof {
                assert(args.deep_view() =~= opener_args(p, url@));
            }
            LaunchCommand { program: String::from_str("cmd"), args }
        },
        Platform::MacOs => {
            let mut args: Vec<String> = Vec::new();
            args.push(String::from_str(url));
            proof {
                assert(args.deep_view() =~= opener_args(p, url@));
            }
            LaunchCommand { program: String::from_str("open"), args }
        },
        Platform::Linux => {
            let mut args: Vec<String> = Vec::new();
            args.push(String::from_str(url));
            proof {
                assert(args.deep_view() =~= opener_args(p, url@));
            }
            LaunchCommand { program: String::from_str("xdg-open"), args }
        },
    }
}

/// The error message returned when the launcher process cannot be spawned:
/// the fixed prefix followed by the spawn failure's own description. Never
/// empty.
pub fn browser_error_message(detail: &str) -> (m: String)
    ensures
        m@ == "Failed to open browser: "@ + detail@,
        m@.len() > 0,
{
    proof {
        reveal_strlit("Failed to open browser: ");
    }
    let mut m = String::from_str("Failed to open browser: ");
    m.append(detail);
    m
}

} // verus!
