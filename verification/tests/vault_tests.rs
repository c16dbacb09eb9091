use zephyr_vault::error::VaultError;
use zephyr_vault::vault::{Vault, VaultEntry};

fn s(x: &str) -> String {
    x.to_string()
}

#[test]
fn new_entry_has_equal_timestamps_and_fields() {
    let e = VaultEntry::new(s("github"), s("me@mail.com"), s("pw"));
    assert_eq!(e.service, "github");
    assert_eq!(e.username, "me@mail.com");
    assert_eq!(e.password, "pw");
    assert_eq!(e.created_at, e.updated_at);
    assert!(e.created_at > 1_600_000_000);
}

#[test]
fn with_timestamp_sets_both_times() {
    let e = VaultEntry::with_timestamp(s("a"), s("b"), s("c"), 1234);
    assert_eq!((e.created_at, e.updated_at), (1234, 1234));
}

#[test]
fn default_vault_is_empty() {
    assert!(Vault::default().entries.is_empty());
}

#[test]
fn add_refuses_empty_password() {
    let mut v = Vault::default();
    assert_eq!(v.add_entry(s("gh"), s("me"), s("")), Err(VaultError::EmptyPassword));
    assert!(v.entries.is_empty());
    assert_eq!(v.add_entry(s("gh"), s("me"), s("x")), Ok(()));
    assert_eq!(v.entries.len(), 1);
    assert_eq!(v.entries[0].service, "gh");
}

#[test]
fn remove_by_index() {
    let mut v = Vault::default();
    v.add_entry(s("a"), s("u1"), s("p1")).unwrap();
    v.add_entry(s("b"), s("u2"), s("p2")).unwrap();
    v.add_entry(s("c"), s("u3"), s("p3")).unwrap();
    assert!(matches!(v.remove_entry(3), Err(VaultError::InvalidIndex)));
    assert_eq!(v.entries.len(), 3);
    let removed = v.remove_entry(1).unwrap();
    assert_eq!(removed.service, "b");
    let services: Vec<&str> = v.entries.iter().map(|e| e.service.as_str()).collect();
    assert_eq!(services, vec!["a", "c"]);
}

#[test]
fn remove_undoes_add() {
    let mut v = Vault::default();
    v.add_entry(s("a"), s("u"), s("p")).unwrap();
    v.add_entry(s("b"), s("v"), s("q")).unwrap();
    let last = v.entries.len() - 1;
    let removed = v.remove_entry(last).unwrap();
    assert_eq!(removed.service, "b");
    assert_eq!(v.entries.len(), 1);
    assert_eq!(v.entries[0].service, "a");
}

#[test]
fn import_skips_short_records() {
    let mut v = Vault::default();
    v.add_entry(s("old"), s("o"), s("p")).unwrap();
    let records = vec![
        vec![s("github"), s("me"), s("pw1")],
        vec![s("short"), s("row")],
        vec![s("gitlab"), s("you"), s("pw2"), s("extra")],
    ];
    v.import_records(&records);
    let triples: Vec<(String, String, String)> =
        v.entries.iter().map(|e| (e.service.clone(), e.username.clone(), e.password.clone())).collect();
    assert_eq!(
        triples,
        vec![
            (s("old"), s("o"), s("p")),
            (s("github"), s("me"), s("pw1")),
            (s("gitlab"), s("you"), s("pw2")),
        ]
    );
    assert!(v.entries.iter().all(|e| e.created_at == e.updated_at));
}

#[test]
fn export_writes_header_then_accounts() {
    let mut v = Vault::default();
    v.add_entry(s("github"), s("me"), s("pw1")).unwrap();
    v.add_entry(s("gitlab"), s("you"), s("pw2")).unwrap();
    let table = v.export_records();
    assert_eq!(
        table,
        vec![
            vec![s("service"), s("username"), s("password")],
            vec![s("github"), s("me"), s("pw1")],
            vec![s("gitlab"), s("you"), s("pw2")],
        ]
    );
}

#[test]
fn import_of_export_restores_accounts() {
    let mut v = Vault::default();
    v.add_entry(s("github"), s("me"), s("pw1")).unwrap();
    v.add_entry(s("gitlab"), s("you"), s("pw2")).unwrap();
    let table = v.export_records();
    let mut w = Vault::default();
    w.import_records(&table[1..].to_vec());
    let a: Vec<(String, String, String)> = v.entries.iter().map(|e| (e.service.clone(), e.username.clone(), e.password.clone())).collect();
    let b: Vec<(String, String, String)> = w.entries.iter().map(|e| (e.service.clone(), e.username.clone(), e.password.clone())).collect();
    assert_eq!(a, b);
}
