//! Tests of the two sandbox policies: the command sandbox and the browser
//! jail.

use aether_core::browser_sandbox::{
    SandboxConfig as BrowserSandboxConfig, SandboxedProcess,
};
use aether_core::sandbox::{Sandbox, SandboxConfig};

#[test]
fn sandbox_test_sandbox_config_default() {
    let config = SandboxConfig::default();
    assert_eq!(config.drop_to_user, Some("nobody".to_string()));
    assert_eq!(config.max_memory_mb, Some(512));
    assert_eq!(config.max_cpu_time_secs, Some(5));
}

#[test]
fn test_sandbox_creation() {
    let config = SandboxConfig::default();
    let _sandbox = Sandbox::new(config);
}

#[test]
fn test_nsjail_detection() {
    // Absent on most systems; the probe must simply answer.
    let available = Sandbox::is_nsjail_available();
    println!("nsjail available: {}", available);
}

#[test]
fn test_drop_privileges_unknown_user() {
    // An account that does not exist fails before any credential change.
    let result = Sandbox::drop_privileges("no_such_account_for_this_test");
    assert!(matches!(
        result,
        Err(aether_core::sandbox::SandboxError::PrivilegeDropFailed(_))
    ));
}

#[test]
fn browser_sandbox_test_sandbox_config_default() {
    let config = BrowserSandboxConfig::default();
    assert_eq!(config.max_memory_mb, 512);
    assert_eq!(config.max_cpu_time_secs, 30);
}

#[test]
fn test_is_available() {
    let available = SandboxedProcess::is_available();
    println!("nsjail available: {}", available);
}

#[test]
fn test_build_nsjail_args() {
    let config = BrowserSandboxConfig::default();
    let sandbox = SandboxedProcess::new(config);

    let args = sandbox
        .build_nsjail_args("echo", &vec!["hello".to_string()])
        .unwrap();

    assert!(args.contains(&"--hostname".to_string()));
    assert!(args.contains(&"echo".to_string()));
    // 512 MiB rendered in bytes by the decimal formatter.
    assert!(args.contains(&"536870912".to_string()));
    assert_eq!(args.last(), Some(&"hello".to_string()));
}
