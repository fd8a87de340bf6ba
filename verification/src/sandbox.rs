//! Sandbox policy for command execution.
//!
//! The sandbox describes the limits a spawned command runs under (user,
//! memory, CPU time) and knows how to drop the process's own privileges to
//! an unprivileged account. Wrapping a concrete process object with these
//! limits is operating-system work that lives with the caller; the policy
//! and the privilege-drop sequence are decided here.

use vstd::prelude::*;

verus! {

/// Errors of the sandbox.
#[derive(Debug)]
pub enum SandboxError {
    /// Privileges could not be dropped.
    PrivilegeDropFailed(String),
    /// A resource limit could not be installed.
    ResourceLimitFailed(String),
    /// Sandboxing is not supported on this platform.
    NotSupported,
    /// The configuration was unusable.
    ConfigError(String),
}

/// Configuration of the sandbox.
#[derive(Debug, Clone)]
pub struct SandboxConfig {
    /// Run as this user, when set.
    pub drop_to_user: Option<String>,
    /// Run as this group, when set.
    pub drop_to_group: Option<String>,
    /// Memory limit in MiB, when bounded.
    pub max_memory_mb: Option<u64>,
    /// CPU time limit in seconds, when bounded.
    pub max_cpu_time_secs: Option<u64>,
    /// Chroot directory, when set.
    pub chroot_dir: Option<String>,
    /// Prefer an external jail when one is installed.
    pub use_nsjail: bool,
}

impl Default for SandboxConfig {
    /// The `nobody` account, 512 MiB, five seconds of CPU, no chroot, no
    /// external jail.
    fn default() -> (r: SandboxConfig)
        ensures
            r.drop_to_user matches Some(u) && u@ == "nobody"@,
            r.drop_to_group matches Some(g) && g@ == "nobody"@,
            r.max_memory_mb == Some(512u64),
            r.max_cpu_time_secs == Some(5u64),
            r.chroot_dir is None,
            !r.use_nsjail,
    {
        SandboxConfig {
            drop_to_user: Some("nobody".to_owned()),
            drop_to_group: Some("nobody".to_owned()),
            max_memory_mb: Some(512),
            max_cpu_time_secs: Some(5),
            chroot_dir: None,
            use_nsjail: false,
        }
    }
}

/// Relies on `which::which` to look a binary up on the search path. The
/// result depends on the machine; nothing is promised of it.
#[verifier::external_body]
pub(crate) fn binary_on_path(name: &str) -> (r: bool) {
    which::which(name).is_ok()
}

/// Relies on `nix::unistd::User::from_name` for the account record of a
/// user name; the payload is the raw user and group id.
#[verifier::external_body]
fn lookup_user_ids(name: &str) -> (r: Result<Option<(u32, u32)>, String>) {
    match nix::unistd::User::from_name(name) {
        Ok(Some(u)) => Ok(Some((u.uid.as_raw(), u.gid.as_raw()))),
        Ok(None) => Ok(None),
        Err(e) => Err(e.to_string()),
    }
}

/// Relies on `nix::unistd::setgid` to change the process's group id.
#[verifier::external_body]
fn set_group_id(gid: u32) -> (r: Result<(), String>) {
    match nix::unistd::setgid(nix::unistd::Gid::from_raw(gid)) {
        Ok(()) => Ok(()),
        Err(e) => Err(e.to_string()),
    }
}

/// Relies on `nix::unistd::setuid` to change the process's user id.
#[verifier::external_body]
fn set_user_id(uid: u32) -> (r: Result<(), String>) {
    match nix::unistd::setuid(nix::unistd::Uid::from_raw(uid)) {
        Ok(()) => Ok(()),
        Err(e) => Err(e.to_string()),
    }
}

/// Sandbox policy around one configuration.
pub struct Sandbox {
    config: SandboxConfig,
}

impl Sandbox {
    /// The stored configuration.
    pub closed spec fn spec_config(&self) -> SandboxConfig {
        self.config
    }

    /// Create a sandbox around a configuration.
    pub fn new(config: SandboxConfig) -> (r: Sandbox)
        ensures
            r.spec_config() == config,
    {
        Sandbox { config }
    }

    /// Whether an external jail binary is installed. The answer depends on
    /// the machine.
    pub fn is_nsjail_available() -> bool {
        binary_on_path("nsjail")
    }

    /// Drop the process's privileges to a named account: the group first,
    /// then the user. Whether each step succeeds depends on the system;
    /// every failure surfaces as `PrivilegeDropFailed`, and an unknown
    /// account never reaches the system calls.
    pub fn drop_privileges(username: &str) -> (r: Result<(), SandboxError>)
        ensures
            r is Err ==> r matches Err(SandboxError::PrivilegeDropFailed(_)),
    {
        let ids = match lookup_user_ids(username) {
            Ok(Some(ids)) => ids,
            Ok(None) => {
                let msg = String::from_str("User not found: ").concat(username);
                return Err(SandboxError::PrivilegeDropFailed(msg));
            },
            Err(e) => {
                return Err(SandboxError::PrivilegeDropFailed(e));
            },
        };
        match set_group_id(ids.1) {
            Ok(_) => (),
            Err(e) => {
                return Err(SandboxError::PrivilegeDropFailed(e));
            },
        }
        match set_user_id(ids.0) {
            Ok(_) => (),
            Err(e) => {
                return Err(SandboxError::PrivilegeDropFailed(e));
            },
        }
        Ok(())
    }
}

} // verus!
