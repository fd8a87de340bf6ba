//! Tests of the command whitelist.

use aether_core::whitelist::{CommandWhitelist, WhitelistEntry};

#[test]
fn test_default_whitelist() {
    let whitelist = CommandWhitelist::default();
    assert!(whitelist.is_whitelisted("ls"));
    assert!(whitelist.is_whitelisted("cat"));
    assert!(whitelist.is_whitelisted("grep"));
    assert!(!whitelist.is_whitelisted("rm"));
    assert!(!whitelist.is_whitelisted("sudo"));
}

#[test]
fn test_add_remove_command() {
    let mut whitelist = CommandWhitelist::new();
    assert!(!whitelist.is_whitelisted("test"));

    whitelist.add_command(
        "test",
        WhitelistEntry {
            command: "test".to_string(),
            description: None,
            max_args: None,
            allowed_arg_patterns: None,
            requires_sudo: false,
        },
    );

    assert!(whitelist.is_whitelisted("test"));

    let removed = whitelist.remove_command("test");
    assert!(removed.is_some());
    assert!(!whitelist.is_whitelisted("test"));
}

#[test]
fn test_whitelist_commands_list() {
    let whitelist = CommandWhitelist::default();
    let commands = whitelist.commands();

    assert!(commands.contains(&"ls".to_string()));
    assert!(commands.contains(&"cat".to_string()));
    assert!(commands.contains(&"echo".to_string()));
    assert!(commands.len() > 5);
}

#[test]
fn test_add_replaces_existing_entry() {
    let mut whitelist = CommandWhitelist::default();
    let before = whitelist.len();

    whitelist.add_command(
        "ls",
        WhitelistEntry {
            command: "ls".to_string(),
            description: Some("replacement".to_string()),
            max_args: Some(1),
            allowed_arg_patterns: None,
            requires_sudo: false,
        },
    );

    assert_eq!(whitelist.len(), before);
    let entry = whitelist.get("ls").unwrap();
    assert_eq!(entry.max_args, Some(1));
}
