//! Whitelisted command execution: the decision logic.
//!
//! The executor authorizes an invocation before anything runs: the command
//! must be whitelisted, the argument count must respect the entry's bound,
//! no argument may carry a shell metacharacter (unless shell execution is
//! deliberately allowed), and when the entry restricts arguments to
//! patterns each argument must match one of them. All of that is decided
//! here, exactly; spawning the authorized process, wiring its streams and
//! enforcing the timeout is operating-system work that lives with the
//! caller.

use crate::platform::Platform;
use crate::sandbox::{Sandbox, SandboxConfig};
use crate::whitelist::{CommandWhitelist, WhitelistEntry};
use vstd::prelude::*;

verus! {

/// Errors of the executor.
#[derive(Debug)]
pub enum ExecutorError {
    /// The command is not on the whitelist.
    CommandNotWhitelisted(String),
    /// An argument violated the entry's policy.
    InvalidArguments(String),
    /// The process could not be run.
    ExecutionFailed(String),
    /// The command exceeded its time budget, in seconds.
    TimeoutExceeded(u64),
    /// The sandbox could not be set up.
    SandboxError(String),
    /// The command was denied by the operating system.
    PermissionDenied(String),
    /// The command exceeded a resource limit.
    ResourceLimitExceeded(String),
}

/// The outcome of one command run.
#[derive(Debug, Clone)]
pub struct CommandResult {
    /// Command executed.
    pub command: String,
    /// Arguments provided.
    pub args: Vec<String>,
    /// Standard output.
    pub stdout: String,
    /// Standard error.
    pub stderr: String,
    /// Exit code.
    pub exit_code: i32,
    /// Execution duration in milliseconds.
    pub duration_ms: u64,
    /// Whether the command exited with code zero.
    pub success: bool,
}

/// Configuration of the executor.
#[derive(Debug, Clone)]
pub struct ExecutorConfig {
    /// Time budget per command, in seconds.
    pub max_timeout_secs: u64,
    /// Run commands inside the sandbox.
    pub enable_sandbox: bool,
    /// Cap on captured output, in bytes.
    pub max_output_bytes: usize,
    /// Working directory, when set.
    pub working_dir: Option<String>,
    /// Environment variables handed to the command.
    pub env_vars: Vec<(String, String)>,
    /// Allow shell metacharacters in arguments (dangerous).
    pub allow_shell: bool,
}

impl Default for ExecutorConfig {
    /// Five-second budget, sandbox on, one-MiB output cap, no shell.
    fn default() -> (r: ExecutorConfig)
        ensures
            r.max_timeout_secs == 5,
            r.enable_sandbox,
            r.max_output_bytes == 1048576,
            r.working_dir is None,
            r.env_vars@.len() == 0,
            !r.allow_shell,
    {
        ExecutorConfig {
            max_timeout_secs: 5,
            enable_sandbox: true,
            max_output_bytes: 1048576,
            working_dir: None,
            env_vars: Vec::new(),
            allow_shell: false,
        }
    }
}

/// Whether a pattern is a well-formed regular expression. What `regex`
/// accepts depends on the pattern alone.
pub uninterp spec fn pattern_valid(p: Seq<char>) -> bool;

/// Whether a regular expression matches somewhere in a text. The result
/// depends on the pattern and the text alone.
pub uninterp spec fn pattern_accepts(p: Seq<char>, s: Seq<char>) -> bool;

/// Relies on `regex::Regex::new` and `regex::Regex::is_match`: compiling
/// fails exactly on an invalid pattern, and a match is a pure function of
/// pattern and text.
#[verifier::external_body]
fn regex_compile_and_match(pattern: &str, text: &str) -> (r: Option<bool>)
    ensures
        r is Some <==> pattern_valid(pattern@),
        r matches Some(b) ==> b == pattern_accepts(pattern@, text@),
{
    match regex::Regex::new(pattern) {
        Ok(re) => Some(re.is_match(text)),
        Err(_) => None,
    }
}

/// The characters that reach the shell's own syntax.
pub open spec fn is_shell_metachar(c: char) -> bool {
    ||| c == ';'
    ||| c == '&'
    ||| c == '|'
    ||| c == '>'
    ||| c == '<'
    ||| c == '`'
    ||| c == '$'
    ||| c == '('
    ||| c == ')'
    ||| c == '{'
    ||| c == '}'
    ||| c == '['
    ||| c == ']'
    ||| c == '\\'
    ||| c == '\n'
    ||| c == '*'
    ||| c == '?'
}

/// Whether a string holds a shell metacharacter.
pub open spec fn has_shell_metachar(s: Seq<char>) -> bool {
    exists|i: int| 0 <= i < s.len() && is_shell_metachar(#[trigger] s[i])
}

/// Whether one argument passes an entry's pattern list: an absent or empty
/// list restricts nothing; otherwise some pattern must compile and match.
pub open spec fn arg_matches_patterns(patterns: Option<Vec<String>>, arg: Seq<char>) -> bool {
    match patterns {
        None => true,
        Some(ps) => ps@.len() == 0 || exists|j: int|
            0 <= j < ps@.len() && pattern_valid((#[trigger] ps@[j])@) && pattern_accepts(
                ps@[j]@,
                arg,
            ),
    }
}

/// Whether an argument list passes an entry's whole policy under a given
/// shell-allowance.
pub open spec fn args_allowed(args: Seq<String>, entry: WhitelistEntry, allow_shell: bool) -> bool {
    &&& (entry.max_args matches Some(m) ==> args.len() <= m)
    &&& forall|i: int|
        0 <= i < args.len() ==> (allow_shell || !has_shell_metachar((#[trigger] args[i])@))
            && arg_matches_patterns(entry.allowed_arg_patterns, args[i]@)
}

/// Command executor: the whitelist, the policy switchboard and the
/// platform it runs on.
pub struct CommandExecutor {
    config: ExecutorConfig,
    whitelist: CommandWhitelist,
    sandbox: Option<Sandbox>,
    platform: Platform,
}

impl CommandExecutor {
    /// The whitelist is well formed.
    pub closed spec fn wf(&self) -> bool {
        self.whitelist.wf()
    }

    /// The stored configuration.
    pub closed spec fn spec_config(&self) -> ExecutorConfig {
        self.config
    }

    /// The stored whitelist.
    pub closed spec fn spec_whitelist(&self) -> CommandWhitelist {
        self.whitelist
    }

    /// The platform the executor was built on.
    pub closed spec fn spec_platform(&self) -> Platform {
        self.platform
    }

    /// Whether the executor holds a sandbox.
    pub closed spec fn spec_has_sandbox(&self) -> bool {
        self.sandbox is Some
    }

    /// Create an executor; a sandbox is set up exactly when the
    /// configuration asks for one.
    pub fn new(config: ExecutorConfig, whitelist: CommandWhitelist) -> (r: CommandExecutor)
        requires
            whitelist.wf(),
        ensures
            r.wf(),
            r.spec_config() == config,
            r.spec_whitelist() == whitelist,
            r.spec_has_sandbox() == config.enable_sandbox,
    {
        let sandbox: Option<Sandbox> = if config.enable_sandbox {
            Some(Sandbox::new(SandboxConfig::default()))
        } else {
            None
        };
        CommandExecutor { config, whitelist, sandbox, platform: Platform::current() }
    }

    /// Whether a string holds a character with meaning to a shell.
    pub fn contains_shell_metacharacters(&self, s: &str) -> (r: bool)
        ensures
            r == has_shell_metachar(s@),
    {
        let n = s.unicode_len();
        let mut i: usize = 0;
        while i < n
            invariant
                i <= n,
                n == s@.len(),
                forall|j: int| 0 <= j < i ==> !is_shell_metachar(#[trigger] s@[j]),
            decreases n - i,
        {
            let c = s.get_char(i);
            if c == ';' || c == '&' || c == '|' || c == '>' || c == '<' || c == '`' || c == '$' || c
                == '(' || c == ')' || c == '{' || c == '}' || c == '[' || c == ']' || c == '\\' || c
                == '\n' || c == '*' || c == '?' {
                return true;
            }
            i = i + 1;
        }
        false
    }

    /// Check one argument list against an entry's policy: the count bound,
    /// the shell-metacharacter ban, and the pattern list, in that order.
    pub fn validate_args(&self, args: &Vec<String>, entry: &WhitelistEntry) -> (r: Result<
        (),
        ExecutorError,
    >)
        ensures
            r is Ok <==> args_allowed(args@, *entry, self.spec_config().allow_shell),
            r is Err ==> r matches Err(ExecutorError::InvalidArguments(_)),
    {
        match entry.max_args {
            Some(m) => {
                if args.len() > m {
                    return Err(ExecutorError::InvalidArguments("Too many arguments".to_owned()));
                }
            },
            None => (),
        }
        let n = args.len();
        let mut i: usize = 0;
        while i < n
            invariant
                i <= n,
                n == args@.len(),
                forall|j: int|
                    0 <= j < i ==> (self.spec_config().allow_shell || !has_shell_metachar(
                        (#[trigger] args@[j])@,
                    )) && arg_matches_patterns(entry.allowed_arg_patterns, args@[j]@),
            decreases n - i,
        {
            let arg: &String = &args[i];
            if self.contains_shell_metacharacters(arg.as_str()) && !self.config.allow_shell {
                return Err(
                    ExecutorError::InvalidArguments(
                        "Argument contains shell metacharacters".to_owned(),
                    ),
                );
            }
            match &entry.allowed_arg_patterns {
                Some(patterns) => {
                    let pn = patterns.len();
                    if pn > 0 {
                        let mut pj: usize = 0;
                        let mut matched: bool = false;
                        while pj < pn && !matched
                            invariant
                                pj <= pn,
                                pn == patterns@.len(),
                                matched ==> exists|q: int|
                                    0 <= q < pn && pattern_valid((#[trigger] patterns@[q])@)
                                        && pattern_accepts(patterns@[q]@, arg@),
                                !matched ==> forall|q: int|
                                    0 <= q < pj ==> !(pattern_valid((#[trigger] patterns@[q])@)
                                        && pattern_accepts(patterns@[q]@, arg@)),
                            decreases pn - pj,
                        {
                            match regex_compile_and_match(patterns[pj].as_str(), arg.as_str()) {
                                Some(true) => {
                                    matched = true;
                                },
                                _ => (),
                            }
                            pj = pj + 1;
                        }
                        if !matched {
                            return Err(
                                ExecutorError::InvalidArguments(
                                    "Argument does not match allowed patterns".to_owned(),
                                ),
                            );
                        }
                    }
                },
                None => (),
            }
            i = i + 1;
        }
        Ok(())
    }

    /// Authorize one invocation: the command must be whitelisted and the
    /// arguments must pass its policy. This is the whole decision the
    /// executor makes before a process may be spawned.
    pub fn validate_command(&self, command: &str, args: &Vec<String>) -> (r: Result<
        (),
        ExecutorError,
    >)
        requires
            self.wf(),
        ensures
            r is Ok <==> (self.spec_whitelist().spec_contains(command@) && args_allowed(
                args@,
                self.spec_whitelist().spec_entry(command@),
                self.spec_config().allow_shell,
            )),
            !self.spec_whitelist().spec_contains(command@) ==> (r matches Err(
                ExecutorError::CommandNotWhitelisted(c),
            ) && c@ == command@),
            self.spec_whitelist().spec_contains(command@) && r is Err ==> (r matches Err(
                ExecutorError::InvalidArguments(_),
            )),
    {
        let entry_opt = self.whitelist.get(command);
        match entry_opt {
            Some(entry) => self.validate_args(args, entry),
            None => Err(ExecutorError::CommandNotWhitelisted(command.to_owned())),
        }
    }

    /// The platform the executor was built on.
    pub fn platform(&self) -> (r: &Platform)
        ensures
            *r == self.spec_platform(),
    {
        &self.platform
    }

    /// The configuration the executor was built with: the spawning side
    /// reads its time budget, output cap, working directory and
    /// environment from here.
    pub fn config(&self) -> (r: &ExecutorConfig)
        ensures
            *r == self.spec_config(),
    {
        &self.config
    }
}

} // verus!
