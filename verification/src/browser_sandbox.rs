//! Process isolation policy for the browser harness.
//!
//! The sandbox runs a command under an external jail with resource
//! limits, read-only mounts and a private hostname. The exact jail
//! invocation — every argument, in order — is computed and verified here;
//! spawning the jail process and collecting its output is
//! operating-system work that lives with the caller.

use crate::sandbox::binary_on_path;
use crate::text::{decimal_of, u64_to_string};
use vstd::prelude::*;

verus! {

/// Errors of the sandbox.
#[derive(Debug)]
pub enum SandboxError {
    /// Sandboxing is not supported on this platform.
    NotSupported,
    /// The sandboxed process could not be started.
    StartFailed(String),
    /// The configuration was unusable.
    ConfigError(String),
    /// A resource limit was exceeded.
    ResourceLimitExceeded(String),
    /// The process violated the sandbox policy.
    SecurityViolation(String),
}

/// One bind mount into the sandbox.
#[derive(Debug, Clone)]
pub struct MountPoint {
    /// Path outside the sandbox.
    pub source: String,
    /// Path inside the sandbox.
    pub target: String,
    /// Whether the mount is read-only.
    pub readonly: bool,
}

/// Configuration of the sandbox.
#[derive(Debug, Clone)]
pub struct SandboxConfig {
    /// Memory limit in MiB.
    pub max_memory_mb: u64,
    /// CPU time limit in seconds.
    pub max_cpu_time_secs: u64,
    /// Wall time limit in seconds.
    pub max_wall_time_secs: u64,
    /// File size limit in MiB.
    pub max_file_size_mb: u64,
    /// Open file limit.
    pub max_open_files: u64,
    /// Bind mounts into the sandbox.
    pub mount_points: Vec<MountPoint>,
    /// Hostname inside the sandbox.
    pub hostname: String,
    /// Allow network access.
    pub enable_network: bool,
    /// Working directory inside the sandbox.
    pub working_dir: String,
}

impl Default for SandboxConfig {
    /// 512 MiB, 30 s of CPU within 35 s of wall time, the usual read-only
    /// system mounts and a writable `/tmp`.
    fn default() -> (r: SandboxConfig)
        ensures
            r.max_memory_mb == 512,
            r.max_cpu_time_secs == 30,
            r.max_wall_time_secs == 35,
            r.max_file_size_mb == 100,
            r.max_open_files == 128,
            r.mount_points@.len() == 3,
            r.hostname@ == "browser-sandbox"@,
            r.enable_network,
            r.working_dir@ == "/tmp"@,
    {
        let mut mounts: Vec<MountPoint> = Vec::new();
        mounts.push(
            MountPoint { source: "/lib".to_owned(), target: "/lib".to_owned(), readonly: true },
        );
        mounts.push(
            MountPoint { source: "/usr".to_owned(), target: "/usr".to_owned(), readonly: true },
        );
        mounts.push(
            MountPoint { source: "/tmp".to_owned(), target: "/tmp".to_owned(), readonly: false },
        );
        SandboxConfig {
            max_memory_mb: 512,
            max_cpu_time_secs: 30,
            max_wall_time_secs: 35,
            max_file_size_mb: 100,
            max_open_files: 128,
            mount_points: mounts,
            hostname: "browser-sandbox".to_owned(),
            enable_network: true,
            working_dir: "/tmp".to_owned(),
        }
    }
}

/// A MiB count in bytes, saturated at the machine limit.
pub open spec fn spec_mib_bytes(mb: u64) -> int {
    vstd::math::min((mb as int) * 1048576, u64::MAX as int)
}

/// The bind-mount argument of one mount point: `source:target`, with a
/// `:ro` suffix when read-only.
pub open spec fn mount_arg(m: MountPoint) -> Seq<char> {
    if m.readonly {
        m.source@ + ":"@ + m.target@ + ":ro"@
    } else {
        m.source@ + ":"@ + m.target@
    }
}

/// The `--bindmount` argument pairs of a mount list, in order.
pub open spec fn mount_args(mounts: Seq<MountPoint>) -> Seq<Seq<char>>
    decreases mounts.len(),
{
    if mounts.len() == 0 {
        Seq::empty()
    } else {
        mount_args(mounts.drop_last()) + seq!["--bindmount"@, mount_arg(mounts.last())]
    }
}

/// The views of a vector of strings.
pub open spec fn views_of(v: Seq<String>) -> Seq<Seq<char>> {
    v.map_values(|s: String| s@)
}

/// The whole jail invocation of a configuration: once-mode, hostname,
/// working directory, the resource limits, the network switch, the bind
/// mounts, the unprivileged account, no `/proc`, and the command with its
/// arguments.
pub open spec fn nsjail_args_model(cfg: SandboxConfig, command: Seq<char>, args: Seq<Seq<char>>) -> Seq<
    Seq<char>,
> {
    seq![
        "--mode"@,
        "o"@,
        "--hostname"@,
        cfg.hostname@,
        "--cwd"@,
        cfg.working_dir@,
        "--rlimit_as"@,
        decimal_of(spec_mib_bytes(cfg.max_memory_mb)),
        "--rlimit_cpu"@,
        decimal_of(cfg.max_cpu_time_secs as int),
        "--rlimit_fsize"@,
        decimal_of(spec_mib_bytes(cfg.max_file_size_mb)),
        "--rlimit_nofile"@,
        decimal_of(cfg.max_open_files as int),
        "--time_limit"@,
        decimal_of(cfg.max_wall_time_secs as int),
    ] + (if cfg.enable_network {
        seq!["--disable_clone_newnet"@]
    } else {
        Seq::empty()
    }) + mount_args(cfg.mount_points@) + seq![
        "--user"@,
        "nobody"@,
        "--group"@,
        "nogroup"@,
        "--disable_proc"@,
        "--"@,
    ] + seq![command] + args
}

/// A sandboxed process: the policy around one command run. Spawning and
/// reaping the jail lives with the caller.
pub struct SandboxedProcess {
    config: SandboxConfig,
}

impl SandboxedProcess {
    /// The stored configuration.
    pub closed spec fn spec_config(&self) -> SandboxConfig {
        self.config
    }

    /// Create a sandboxed-process policy.
    pub fn new(config: SandboxConfig) -> (r: SandboxedProcess)
        ensures
            r.spec_config() == config,
    {
        SandboxedProcess { config }
    }

    /// The configuration of this sandbox.
    pub fn config(&self) -> (r: &SandboxConfig)
        ensures
            *r == self.spec_config(),
    {
        &self.config
    }

    /// Whether the jail binary is installed. The answer depends on the
    /// machine.
    pub fn is_available() -> bool {
        binary_on_path("nsjail")
    }

    /// Build the jail invocation for one command: exactly the argument
    /// list of the model, in order.
    pub fn build_nsjail_args(&self, command: &str, args: &Vec<String>) -> (r: Result<
        Vec<String>,
        SandboxError,
    >)
        ensures
            r matches Ok(v) && v@.map_values(|s: String| s@) == nsjail_args_model(
                self.spec_config(),
                command@,
                views_of(args@),
            ),
    {
        let mut out: Vec<String> = Vec::new();
        out.push("--mode".to_owned());
        out.push("o".to_owned());
        out.push("--hostname".to_owned());
        out.push(self.config.hostname.clone());
        out.push("--cwd".to_owned());
        out.push(self.config.working_dir.clone());
        out.push("--rlimit_as".to_owned());
        out.push(u64_to_string(mib_bytes(self.config.max_memory_mb)));
        out.push("--rlimit_cpu".to_owned());
        out.push(u64_to_string(self.config.max_cpu_time_secs));
        out.push("--rlimit_fsize".to_owned());
        out.push(u64_to_string(mib_bytes(self.config.max_file_size_mb)));
        out.push("--rlimit_nofile".to_owned());
        out.push(u64_to_string(self.config.max_open_files));
        out.push("--time_limit".to_owned());
        out.push(u64_to_string(self.config.max_wall_time_secs));
        if self.config.enable_network {
            out.push("--disable_clone_newnet".to_owned());
        }
        let ghost head = views_of(out@);
        proof {
            assert(head =~~= seq![
                "--mode"@,
                "o"@,
                "--hostname"@,
                self.config.hostname@,
                "--cwd"@,
                self.config.working_dir@,
                "--rlimit_as"@,
                decimal_of(spec_mib_bytes(self.config.max_memory_mb)),
                "--rlimit_cpu"@,
                decimal_of(self.config.max_cpu_time_secs as int),
                "--rlimit_fsize"@,
                decimal_of(spec_mib_bytes(self.config.max_file_size_mb)),
                "--rlimit_nofile"@,
                decimal_of(self.config.max_open_files as int),
                "--time_limit"@,
                decimal_of(self.config.max_wall_time_secs as int),
            ] + (if self.config.enable_network {
                seq!["--disable_clone_newnet"@]
            } else {
                Seq::<Seq<char>>::empty()
            }));
        }
        let mn = self.config.mount_points.len();
        let mut mi: usize = 0;
        proof {
            assert(self.config.mount_points@.take(0) =~= Seq::<MountPoint>::empty());
            assert(views_of(out@) =~~= head + mount_args(
                Seq::<MountPoint>::empty(),
            ));
        }
        while mi < mn
            invariant
                mi <= mn,
                mn == self.config.mount_points@.len(),
                views_of(out@) == head + mount_args(
                    self.config.mount_points@.take(mi as int),
                ),
            decreases mn - mi,
        {
            let ghost prev = out@;
            let m = &self.config.mount_points[mi];
            out.push("--bindmount".to_owned());
            let spec_str: String = if m.readonly {
                m.source.clone().concat(":").concat(m.target.as_str()).concat(":ro")
            } else {
                m.source.clone().concat(":").concat(m.target.as_str())
            };
            let ghost sv = spec_str@;
            out.push(spec_str);
            proof {
                let mp = self.config.mount_points@;
                assert(sv == mount_arg(mp[mi as int]));
                assert(mp.take(mi as int + 1).drop_last() =~= mp.take(mi as int));
                assert(mp.take(mi as int + 1).last() == mp[mi as int]);
                assert(mount_args(mp.take(mi as int + 1)) == mount_args(mp.take(mi as int))
                    + seq!["--bindmount"@, mount_arg(mp[mi as int])]);
                assert(views_of(out@) =~~= views_of(prev) + seq![
                    "--bindmount"@,
                    mount_arg(mp[mi as int]),
                ]);
                assert(views_of(out@) =~~= head + mount_args(mp.take(mi as int + 1)));
            }
            mi = mi + 1;
        }
        proof {
            assert(self.config.mount_points@.take(mn as int) =~= self.config.mount_points@);
        }
        let ghost before_tail = views_of(out@);
        out.push("--user".to_owned());
        out.push("nobody".to_owned());
        out.push("--group".to_owned());
        out.push("nogroup".to_owned());
        out.push("--disable_proc".to_owned());
        out.push("--".to_owned());
        out.push(command.to_owned());
        let an = args.len();
        let ghost head2 = views_of(out@);
        let mut ai: usize = 0;
        proof {
            assert(head2 =~~= before_tail + seq![
                "--user"@,
                "nobody"@,
                "--group"@,
                "nogroup"@,
                "--disable_proc"@,
                "--"@,
            ] + seq![command@]);
            assert(views_of(out@) =~~= head2 + views_of(args@).take(0));
        }
        while ai < an
            invariant
                ai <= an,
                an == args@.len(),
                views_of(out@) == head2 + views_of(args@).take(ai as int),
            decreases an - ai,
        {
            let ghost prev = out@;
            out.push(args[ai].clone());
            proof {
                assert(views_of(out@) =~~= views_of(prev).push(args@[ai as int]@));
                assert(views_of(out@) =~~= head2 + views_of(args@).take(ai as int + 1));
            }
            ai = ai + 1;
        }
        proof {
            assert(views_of(args@).take(an as int) =~= views_of(args@));
            assert(views_of(out@) =~~= nsjail_args_model(
                self.spec_config(),
                command@,
                views_of(args@),
            ));
        }
        Ok(out)
    }
}

/// A MiB count in bytes, saturated at the machine limit.
fn mib_bytes(mb: u64) -> (r: u64)
    ensures
        r as int == spec_mib_bytes(mb),
{
    if mb > u64::MAX / 1048576 {
        proof {
            vstd::arithmetic::div_mod::lemma_fundamental_div_mod(u64::MAX as int, 1048576);
            assert((mb as int) * 1048576 > u64::MAX as int) by (nonlinear_arith)
                requires
                    mb as int > u64::MAX as int / 1048576,
                    u64::MAX as int == 1048576 * (u64::MAX as int / 1048576) + u64::MAX as int
                        % 1048576,
                    u64::MAX as int % 1048576 < 1048576,
            ;
        }
        u64::MAX
    } else {
        proof {
            vstd::arithmetic::div_mod::lemma_fundamental_div_mod(u64::MAX as int, 1048576);
            assert((mb as int) * 1048576 <= u64::MAX as int) by (nonlinear_arith)
                requires
                    0 <= mb as int <= u64::MAX as int / 1048576,
                    u64::MAX as int == 1048576 * (u64::MAX as int / 1048576) + u64::MAX as int
                        % 1048576,
                    u64::MAX as int % 1048576 >= 0,
            ;
        }
        mb * 1048576
    }
}

} // verus!
