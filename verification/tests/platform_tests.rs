//! Tests of platform identification; this suite runs on a Unix machine.

use aether_core::platform::{Platform, PlatformInfo};

#[test]
fn test_platform_detection() {
    let platform = Platform::current();
    assert_ne!(platform, Platform::Unknown);
}

#[test]
fn test_platform_properties() {
    let platform = Platform::current();

    assert!(platform.is_unix());
    assert_eq!(platform.default_shell(), "/bin/sh");
    assert_eq!(platform.path_separator(), ':');
    assert_eq!(platform.file_separator(), '/');
}

#[test]
fn test_platform_info() {
    let info = PlatformInfo::detect();

    assert!(!info.os_name.is_empty());
    assert!(!info.arch.is_empty());
    assert!(info.cpu_count > 0);
    assert!(!info.hostname.is_empty());
    assert!(!info.username.is_empty());

    println!("Platform: {:?}", info.platform);
    println!("OS: {} {}", info.os_name, info.os_version);
    println!("Arch: {}", info.arch);
    println!("CPUs: {}", info.cpu_count);
    println!("Memory: {} MB", info.total_memory_mb);
    println!("Hostname: {}", info.hostname);
    println!("User: {}", info.username);
    println!("Sandbox support: {}", info.has_sandbox_support);
}

#[test]
fn test_platform_from_sysname() {
    assert_eq!(Platform::from_sysname("Linux"), Platform::Linux);
    assert_eq!(Platform::from_sysname("Darwin"), Platform::MacOS);
    assert_eq!(Platform::from_sysname("Windows_NT"), Platform::Windows);
    assert_eq!(Platform::from_sysname("Plan9"), Platform::Unknown);
}
