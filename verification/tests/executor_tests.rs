//! Tests of the command executor's decision logic and the crate's public
//! surface.

use aether_core::executor::{CommandExecutor, ExecutorConfig, ExecutorError};
use aether_core::platform::Platform;
use aether_core::sandbox::SandboxConfig;
use aether_core::whitelist::{CommandWhitelist, WhitelistEntry};
use aether_core::VERSION;

#[test]
fn test_version() {
    assert!(!VERSION.is_empty());
}

#[test]
fn test_library_exports() {
    // The main configuration types are constructible through the crate's
    // public surface.
    let _config = ExecutorConfig::default();
    let _sandbox_config = SandboxConfig::default();
    let _platform = Platform::current();
}

#[test]
fn test_executor_config_default() {
    let config = ExecutorConfig::default();
    assert_eq!(config.max_timeout_secs, 5);
    assert!(config.enable_sandbox);
    assert!(!config.allow_shell);
}

#[test]
fn test_shell_metacharacter_detection() {
    let config = ExecutorConfig::default();
    let whitelist = CommandWhitelist::default();
    let executor = CommandExecutor::new(config, whitelist);

    assert!(executor.contains_shell_metacharacters("test; rm -rf /"));
    assert!(executor.contains_shell_metacharacters("test && malicious"));
    assert!(executor.contains_shell_metacharacters("test | grep"));
    assert!(!executor.contains_shell_metacharacters("test"));
    assert!(!executor.contains_shell_metacharacters("test.txt"));
}

#[test]
fn test_validate_command_whitelisting() {
    let executor = CommandExecutor::new(ExecutorConfig::default(), CommandWhitelist::default());

    // A whitelisted command with clean arguments passes.
    let args: Vec<String> = vec!["hello".to_string()];
    assert!(executor.validate_command("echo", &args).is_ok());

    // A command off the whitelist is refused by name.
    match executor.validate_command("rm", &args) {
        Err(ExecutorError::CommandNotWhitelisted(name)) => assert_eq!(name, "rm"),
        _ => panic!("Expected CommandNotWhitelisted"),
    }

    // Shell metacharacters in an argument are refused.
    let bad: Vec<String> = vec!["x; rm -rf /".to_string()];
    assert!(matches!(
        executor.validate_command("echo", &bad),
        Err(ExecutorError::InvalidArguments(_))
    ));
}

#[test]
fn test_validate_args_patterns() {
    let executor = CommandExecutor::new(ExecutorConfig::default(), CommandWhitelist::default());
    let entry = WhitelistEntry {
        command: "demo".to_string(),
        description: None,
        max_args: Some(2),
        allowed_arg_patterns: Some(vec!["^-[ab]+$".to_string()]),
        requires_sudo: false,
    };

    // An argument matching the pattern passes; one that does not is
    // refused; one argument too many is refused by count.
    let good: Vec<String> = vec!["-ab".to_string()];
    assert!(executor.validate_args(&good, &entry).is_ok());

    let bad: Vec<String> = vec!["-xy".to_string()];
    assert!(executor.validate_args(&bad, &entry).is_err());

    let too_many: Vec<String> =
        vec!["-a".to_string(), "-b".to_string(), "-a".to_string()];
    assert!(executor.validate_args(&too_many, &entry).is_err());
}
