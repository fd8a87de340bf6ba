//! Platform identification for the command executor.
//!
//! The decisions (which shell, which separators, whether sandboxing is
//! available) are verified exactly; the probes into the running system go
//! through trusted wrappers around `nix`, and every field assembled from
//! them is guaranteed non-empty with a fixed fallback.

use crate::text::str_eq;
use vstd::prelude::*;

verus! {

/// Platform identifier.
#[derive(Debug, Clone, Copy, PartialEq, Eq, Structural)]
pub enum Platform {
    Linux,
    MacOS,
    Windows,
    Unknown,
}

/// The platform a kernel `sysname` string stands for.
pub open spec fn platform_of_sysname(s: Seq<char>) -> Platform {
    if s == "Linux"@ {
        Platform::Linux
    } else if s == "Darwin"@ {
        Platform::MacOS
    } else if s == "Windows_NT"@ {
        Platform::Windows
    } else {
        Platform::Unknown
    }
}

/// Whether a platform offers process sandboxing.
pub open spec fn spec_sandbox_support(p: Platform) -> bool {
    p == Platform::Linux || p == Platform::MacOS
}

/// Relies on `nix::sys::utsname::uname` for the kernel's sysname, nodename,
/// release and machine strings. The values depend on the machine; nothing
/// is promised of them.
#[verifier::external_body]
fn uname_strings() -> (r: Option<(String, String, String, String)>) {
    match nix::sys::utsname::uname() {
        Ok(u) => Some(
            (
                u.sysname().to_string_lossy().into_owned(),
                u.nodename().to_string_lossy().into_owned(),
                u.release().to_string_lossy().into_owned(),
                u.machine().to_string_lossy().into_owned(),
            ),
        ),
        Err(_) => None,
    }
}

/// Relies on `nix::unistd::sysconf(_NPROCESSORS_ONLN)` for the number of
/// processors online; `None` when the system does not say.
#[verifier::external_body]
pub(crate) fn sysconf_nprocessors() -> (r: Option<i64>) {
    match nix::unistd::sysconf(nix::unistd::SysconfVar::_NPROCESSORS_ONLN) {
        Ok(Some(n)) => Some(n as i64),
        _ => None,
    }
}

/// Relies on `nix::unistd::gethostname` for the machine's hostname.
#[verifier::external_body]
fn gethostname_string() -> (r: Option<String>) {
    match nix::unistd::gethostname() {
        Ok(h) => Some(h.to_string_lossy().into_owned()),
        Err(_) => None,
    }
}

/// Relies on `nix::unistd::getuid` and `nix::unistd::User::from_uid` for
/// the current account's name and home directory.
#[verifier::external_body]
fn current_user_info() -> (r: Option<(String, String)>) {
    match nix::unistd::User::from_uid(nix::unistd::getuid()) {
        Ok(Some(u)) => Some((u.name, u.dir.to_string_lossy().into_owned())),
        _ => None,
    }
}

/// Relies on `nix::sys::sysinfo::sysinfo` for the machine's total RAM in
/// bytes.
#[verifier::external_body]
fn total_memory_bytes() -> (r: Option<u64>) {
    match nix::sys::sysinfo::sysinfo() {
        Ok(s) => Some(s.ram_total()),
        Err(_) => None,
    }
}

/// A non-empty string: the input when it has characters, else `"unknown"`.
fn non_empty_or_unknown(s: String) -> (r: String)
    ensures
        r@.len() > 0,
        s@.len() > 0 ==> r@ == s@,
{
    if s.as_str().unicode_len() == 0 {
        proof {
            reveal_strlit("unknown");
        }
        "unknown".to_owned()
    } else {
        s
    }
}

impl Platform {
    /// The platform a kernel `sysname` string stands for, decided exactly.
    pub fn from_sysname(name: &str) -> (r: Platform)
        ensures
            r == platform_of_sysname(name@),
    {
        if str_eq(name, "Linux") {
            Platform::Linux
        } else if str_eq(name, "Darwin") {
            Platform::MacOS
        } else if str_eq(name, "Windows_NT") {
            Platform::Windows
        } else {
            Platform::Unknown
        }
    }

    /// The platform this process runs on, read from the kernel's own name.
    /// The result depends on the machine; an unreadable or unrecognized
    /// kernel name reports `Unknown`.
    pub fn current() -> (r: Platform) {
        match uname_strings() {
            Some((sysname, _, _, _)) => Platform::from_sysname(sysname.as_str()),
            None => Platform::Unknown,
        }
    }

    /// Whether the platform is Unix-like.
    pub fn is_unix(&self) -> (r: bool)
        ensures
            r == (*self == Platform::Linux || *self == Platform::MacOS),
    {
        matches!(self, Platform::Linux | Platform::MacOS)
    }

    /// Whether the platform is Windows.
    pub fn is_windows(&self) -> (r: bool)
        ensures
            r == (*self == Platform::Windows),
    {
        matches!(self, Platform::Windows)
    }

    /// The platform's lower-case name.
    pub fn name(&self) -> (r: &'static str)
        ensures
            *self == Platform::Linux ==> r@ == "linux"@,
            *self == Platform::MacOS ==> r@ == "macos"@,
            *self == Platform::Windows ==> r@ == "windows"@,
            *self == Platform::Unknown ==> r@ == "unknown"@,
    {
        match self {
            Platform::Linux => "linux",
            Platform::MacOS => "macos",
            Platform::Windows => "windows",
            Platform::Unknown => "unknown",
        }
    }

    /// The default shell of the platform.
    pub fn default_shell(&self) -> (r: &'static str)
        ensures
            (*self == Platform::Linux || *self == Platform::MacOS) ==> r@ == "/bin/sh"@,
            *self == Platform::Windows ==> r@ == "cmd.exe"@,
            *self == Platform::Unknown ==> r@ == "sh"@,
    {
        match self {
            Platform::Linux | Platform::MacOS => "/bin/sh",
            Platform::Windows => "cmd.exe",
            Platform::Unknown => "sh",
        }
    }

    /// The separator between entries of a search path.
    pub fn path_separator(&self) -> (r: char)
        ensures
            r == if *self == Platform::Windows {
                ';'
            } else {
                ':'
            },
    {
        match self {
            Platform::Windows => ';',
            _ => ':',
        }
    }

    /// The separator inside a file path.
    pub fn file_separator(&self) -> (r: char)
        ensures
            r == if *self == Platform::Windows {
                '\\'
            } else {
                '/'
            },
    {
        match self {
            Platform::Windows => '\\',
            _ => '/',
        }
    }
}

/// A description of the machine the process runs on. Every textual field is
/// non-empty (probes that fail fall back to `"unknown"`).
#[derive(Debug, Clone)]
pub struct PlatformInfo {
    /// Platform type.
    pub platform: Platform,
    /// Operating system name (the kernel's sysname).
    pub os_name: String,
    /// Operating system version (the kernel release).
    pub os_version: String,
    /// Hardware architecture.
    pub arch: String,
    /// Number of processors online.
    pub cpu_count: usize,
    /// Total memory in MiB, zero when the system does not say.
    pub total_memory_mb: u64,
    /// Hostname.
    pub hostname: String,
    /// Current account name.
    pub username: String,
    /// Home directory, when the system knows it.
    pub home_dir: Option<String>,
    /// Whether the platform supports sandboxing.
    pub has_sandbox_support: bool,
}

impl PlatformInfo {
    /// Probe the running system. The values depend on the machine, but
    /// every textual field comes back non-empty, the processor count is at
    /// least one, and the sandbox flag agrees with the platform.
    pub fn detect() -> (r: PlatformInfo)
        ensures
            r.os_name@.len() > 0,
            r.os_version@.len() > 0,
            r.arch@.len() > 0,
            r.hostname@.len() > 0,
            r.username@.len() > 0,
            r.cpu_count >= 1,
            r.has_sandbox_support == spec_sandbox_support(r.platform),
    {
        let (sysname, nodename, release, machine) = match uname_strings() {
            Some(t) => t,
            None => (
                String::new(),
                String::new(),
                String::new(),
                String::new(),
            ),
        };
        let platform = Platform::from_sysname(sysname.as_str());
        let user = current_user_info();
        let (username, home_dir) = match user {
            Some((name, dir)) => (non_empty_or_unknown(name), Some(dir)),
            None => {
                proof {
                    reveal_strlit("unknown");
                }
                ("unknown".to_owned(), None)
            },
        };
        let total_memory_mb: u64 = match total_memory_bytes() {
            Some(b) => b / 1048576,
            None => 0,
        };
        PlatformInfo {
            platform,
            os_name: non_empty_or_unknown(sysname),
            os_version: non_empty_or_unknown(release),
            arch: non_empty_or_unknown(machine),
            cpu_count: Self::get_cpu_count(),
            total_memory_mb,
            hostname: Self::get_hostname(),
            username,
            home_dir,
            has_sandbox_support: Self::check_sandbox_support(platform),
        }
    }

    /// The number of processors online, at least one.
    pub fn get_cpu_count() -> (r: usize)
        ensures
            r >= 1,
    {
        match sysconf_nprocessors() {
            Some(n) => {
                if 1 <= n && n <= 0xFFFF_FFFF {
                    n as usize
                } else {
                    1
                }
            },
            None => 1,
        }
    }

    /// The machine's hostname, `"unknown"` when it cannot be read.
    pub fn get_hostname() -> (r: String)
        ensures
            r@.len() > 0,
    {
        match gethostname_string() {
            Some(h) => non_empty_or_unknown(h),
            None => {
                proof {
                    reveal_strlit("unknown");
                }
                "unknown".to_owned()
            },
        }
    }

    /// Whether a platform supports sandboxed execution.
    pub fn check_sandbox_support(platform: Platform) -> (r: bool)
        ensures
            r == spec_sandbox_support(platform),
    {
        match platform {
            Platform::Linux => true,
            Platform::MacOS => true,
            Platform::Windows => false,
            Platform::Unknown => false,
        }
    }
}

} // verus!
