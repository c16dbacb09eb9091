use zephyr_vault::commands::{find_copy_target, resolve_add_password, shows_startup_banner, Commands};
use zephyr_vault::vault::{Vault, VaultEntry};

fn vault() -> Vault {
    let mk = |s: &str, u: &str| VaultEntry::with_timestamp(s.to_string(), u.to_string(), "p".to_string(), 0);
    Vault { entries: vec![mk("github", "me"), mk("gitlab", "me"), mk("bank", "john"), mk("42club", "x")] }
}

#[test]
fn copy_target_by_index() {
    let v = vault();
    assert_eq!(find_copy_target(&v, "0"), Some(0));
    assert_eq!(find_copy_target(&v, "3"), Some(3));
    assert_eq!(find_copy_target(&v, "+2"), Some(2));
    assert_eq!(find_copy_target(&v, "4"), None);
    // A number out of range is not searched for as text.
    assert_eq!(find_copy_target(&v, "42"), None);
}

#[test]
fn copy_target_by_unique_search() {
    let v = vault();
    assert_eq!(find_copy_target(&v, "bank"), Some(2));
    assert_eq!(find_copy_target(&v, "JOHN"), Some(2));
    assert_eq!(find_copy_target(&v, "hub"), Some(0));
    assert_eq!(find_copy_target(&v, "git"), None);
    assert_eq!(find_copy_target(&v, "nothing"), None);
    assert_eq!(find_copy_target(&v, "42c"), Some(3));
}

#[test]
fn banner_decisions() {
    assert!(shows_startup_banner(false, &Commands::List { show: false, quiet: false }));
    assert!(!shows_startup_banner(true, &Commands::List { show: false, quiet: false }));
    assert!(!shows_startup_banner(false, &Commands::Banner));
    assert!(Commands::Banner.shows_banner());
    assert!(Commands::List { show: false, quiet: false }.shows_banner());
    assert!(!Commands::List { show: true, quiet: true }.shows_banner());
    assert!(Commands::Remove { index: 0 }.shows_banner());
    assert!(!Commands::Generate { length: 16, symbols: false }.shows_banner());
    assert!(!Commands::Copy { target: "x".to_string() }.shows_banner());
}

#[test]
fn which_commands_open_the_vault() {
    assert!(!Commands::Banner.uses_vault());
    assert!(!Commands::Generate { length: 16, symbols: true }.uses_vault());
    assert!(!Commands::Wipe { force: true }.uses_vault());
    assert!(Commands::Export { filename: "a.csv".to_string() }.uses_vault());
    assert!(Commands::Import { filename: "a.csv".to_string() }.uses_vault());
    assert!(Commands::Copy { target: "0".to_string() }.uses_vault());
    assert!(Commands::Search { query: "q".to_string(), show: false }.uses_vault());
}

#[test]
fn add_password_sources() {
    assert_eq!(resolve_add_password(false, 16, false, Some("given".to_string())), Some("given".to_string()));
    assert_eq!(resolve_add_password(false, 16, false, None), None);
    let generated = resolve_add_password(true, 20, true, Some("ignored".to_string())).unwrap();
    assert_eq!(generated.chars().count(), 20);
    assert_ne!(generated, "ignored");
}

#[test]
fn only_forced_wipe_deletes() {
    assert!(Commands::Wipe { force: true }.deletes_vault());
    assert!(!Commands::Wipe { force: false }.deletes_vault());
    assert!(!Commands::Banner.deletes_vault());
}

#[test]
fn commands_that_change_the_vault() {
    assert!(Commands::Remove { index: 0 }.changes_vault());
    assert!(Commands::Import { filename: "a.csv".to_string() }.changes_vault());
    assert!(Commands::Add {
        service: "s".to_string(),
        username: "u".to_string(),
        password: None,
        generate: true,
        length: 16,
        symbols: false,
    }
    .changes_vault());
    assert!(!Commands::Export { filename: "a.csv".to_string() }.changes_vault());
    assert!(!Commands::List { show: false, quiet: false }.changes_vault());
    assert!(!Commands::Copy { target: "0".to_string() }.changes_vault());
}
