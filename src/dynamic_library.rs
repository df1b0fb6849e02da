//! Shared-library naming: the file that a library name stands for on each
//! family of hosts.
use vstd::prelude::*;

verus! {

/// A family of hosts with its own shared-library naming convention.
#[derive(Clone, Copy, Debug, PartialEq, Eq, Structural)]
pub enum HostFamily {
    Linux,
    MacOs,
    Windows,
}

pub open spec fn file_prefix(host: HostFamily) -> Seq<char> {
    match host {
        HostFamily::Linux | HostFamily::MacOs => "lib"@,
        HostFamily::Windows => ""@,
    }
}

pub open spec fn file_suffix(host: HostFamily) -> Seq<char> {
    match host {
        HostFamily::Linux => ".so"@,
        HostFamily::MacOs => ".dylib"@,
        HostFamily::Windows => ".dll"@,
    }
}

/// The NUL-terminated file name under which the host's loader finds the
/// library `name`.
pub fn library_file_name(name: &str, host: HostFamily) -> (r: String)
    ensures
        r@ == file_prefix(host) + name@ + file_suffix(host) + "\0"@,
{
    let mut r = String::new();
    match host {
        HostFamily::Linux | HostFamily::MacOs => r.append("lib"),
        HostFamily::Windows => r.append(""),
    }
    r.append(name);
    match host {
        HostFamily::Linux => r.append(".so"),
        HostFamily::MacOs => r.append(".dylib"),
        HostFamily::Windows => r.append(".dll"),
    }
    r.append("\0");
    r
}

} // verus!
