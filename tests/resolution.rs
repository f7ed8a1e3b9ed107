use account_auth::account::{AccountEntry, BackendAvailability, ConfigResolver};
use account_auth::auth::AuthConfig;
use account_auth::document::{DocValue, Document};
use account_auth::error::ConfigError;
use account_auth::protocol::{ProtocolConfig, ProtocolKind, RawProtocol};
use account_auth::secret::SecretSource;
use account_auth::sync::SyncFoldersStrategyDef;

fn doc(entries: Vec<(&str, DocValue)>) -> Document {
    let mut d = Document::new();
    for (k, v) in entries {
        d.set(k.to_string(), v);
    }
    d
}

fn text(s: &str) -> DocValue {
    DocValue::Text(s.to_string())
}

fn folders(names: &[&str]) -> Vec<String> {
    names.iter().map(|s| s.to_string()).collect()
}

fn all_backends() -> BackendAvailability {
    BackendAvailability { imap: true, notmuch: true }
}

fn imap_doc() -> Document {
    doc(vec![
        ("imap-host", text("imap.example.org")),
        ("imap-port", DocValue::Number(993)),
        ("imap-login", text("me@example.org")),
        ("imap-passwd", text("pw")),
        ("imap-watch-cmds", DocValue::List(folders(&["notify-send new"]))),
    ])
}

#[test]
fn strategy_aliases_read_as_their_strategies() {
    let set = folders(&["INBOX", "Sent"]);
    let only = Some(DocValue::Tagged("only".to_string(), set.clone()));
    let except = Some(DocValue::Tagged("except".to_string(), set.clone()));
    let ignore = Some(DocValue::Tagged("ignore".to_string(), set.clone()));
    assert_eq!(SyncFoldersStrategyDef::from_value(&only, "s"), Ok(SyncFoldersStrategyDef::Include(set.clone())));
    assert_eq!(SyncFoldersStrategyDef::from_value(&except, "s"), Ok(SyncFoldersStrategyDef::Exclude(set.clone())));
    assert_eq!(SyncFoldersStrategyDef::from_value(&ignore, "s"), Ok(SyncFoldersStrategyDef::Exclude(set.clone())));
    assert_eq!(SyncFoldersStrategyDef::from_value(&None, "s"), Ok(SyncFoldersStrategyDef::All));
    assert_eq!(SyncFoldersStrategyDef::from_value(&Some(text("all")), "s"), Ok(SyncFoldersStrategyDef::All));
}

#[test]
fn unknown_strategy_is_invalid() {
    let bad = Some(DocValue::Tagged("some".to_string(), folders(&["INBOX"])));
    assert_eq!(
        SyncFoldersStrategyDef::from_value(&bad, "sync-folders-strategy"),
        Err(ConfigError::InvalidValue { field: "sync-folders-strategy".to_string() })
    );
    assert_eq!(SyncFoldersStrategyDef::parse("Only", &folders(&["INBOX"])), None);
}

#[test]
fn strategy_filters_folders() {
    let inc = SyncFoldersStrategyDef::Include(folders(&["INBOX"]));
    let exc = SyncFoldersStrategyDef::Exclude(folders(&["Spam"]));
    assert!(inc.takes("INBOX"));
    assert!(!inc.takes("Spam"));
    assert!(exc.takes("INBOX"));
    assert!(!exc.takes("Spam"));
    assert!(SyncFoldersStrategyDef::All.takes("Spam"));
}

#[test]
fn imap_settings_take_their_defaults() {
    let d = imap_doc();
    let c = RawProtocol::read(&d, ProtocolKind::Imap).to_protocol().unwrap();
    match c {
        ProtocolConfig::Imap(i) => {
            assert_eq!(i.server.host, "imap.example.org");
            assert_eq!(i.server.port, 993);
            assert!(i.server.ssl);
            assert!(!i.server.starttls);
            assert!(!i.server.insecure);
            assert_eq!(i.server.auth, AuthConfig::Passwd(SecretSource::Literal("pw".to_string())));
            assert_eq!(i.watch_cmds, Some(folders(&["notify-send new"])));
            assert_eq!(i.notify_cmd, None);
        }
        other => panic!("unexpected {:?}", other),
    }
}

#[test]
fn resolved_protocol_round_trips() {
    let d = imap_doc();
    let c = RawProtocol::read(&d, ProtocolKind::Imap).to_protocol().unwrap();
    assert_eq!(c.to_raw().to_protocol(), Ok(c.clone()));
    let d = doc(vec![("maildir-root-dir", text("/home/me/Mail"))]);
    let m = RawProtocol::read(&d, ProtocolKind::Maildir).to_protocol().unwrap();
    assert_eq!(m.to_raw().to_protocol(), Ok(m.clone()));
}

#[test]
fn port_out_of_range_is_invalid() {
    let mut d = imap_doc();
    d.set("imap-port".to_string(), DocValue::Number(70000));
    assert_eq!(
        RawProtocol::read(&d, ProtocolKind::Imap).to_protocol(),
        Err(ConfigError::InvalidValue { field: "imap-port".to_string() })
    );
}

#[test]
fn missing_host_is_reported() {
    let d = doc(vec![("smtp-port", DocValue::Number(465))]);
    assert_eq!(
        RawProtocol::read(&d, ProtocolKind::Smtp).to_protocol(),
        Err(ConfigError::MissingRequiredField { field: "smtp-host".to_string() })
    );
}

#[test]
fn later_entry_overrides_earlier() {
    let d = doc(vec![("display-name", text("A")), ("display-name", text("B"))]);
    assert_eq!(d.get("display-name"), Some(text("B")));
    assert_eq!(d.get("signature"), None);
}

#[test]
fn account_is_selected_by_name_or_default() {
    let accounts = vec![
        AccountEntry { name: "work".to_string(), document: imap_doc() },
        AccountEntry {
            name: "home".to_string(),
            document: doc(vec![("default", DocValue::Flag(true)), ("maildir-root-dir", text("/m"))]),
        },
    ];
    assert_eq!(ConfigResolver::select(&accounts, Some("work")), Ok(0));
    assert_eq!(ConfigResolver::select(&accounts, None), Ok(1));
    assert_eq!(
        ConfigResolver::select(&accounts, Some("school")),
        Err(ConfigError::AccountNotFound { name: "school".to_string() })
    );
    let r = ConfigResolver { available: all_backends() };
    let acct = r.resolve(&accounts, None).unwrap();
    assert_eq!(acct.name, "home");
    assert_eq!(acct.sync_strategy, SyncFoldersStrategyDef::All);
    assert!(acct.protocol_config(ProtocolKind::Maildir).is_some());
    assert!(acct.protocol_config(ProtocolKind::Imap).is_none());
}

#[test]
fn sole_account_needs_no_name() {
    let accounts = vec![AccountEntry { name: "only".to_string(), document: imap_doc() }];
    let r = ConfigResolver { available: all_backends() };
    let acct = r.resolve(&accounts, None).unwrap();
    assert_eq!(acct.protocols.len(), 1);
    assert_eq!(acct.protocol_config(ProtocolKind::Imap).map(|c| c.kind()), Some(ProtocolKind::Imap));
}

#[test]
fn no_default_among_several_is_not_found() {
    let accounts = vec![
        AccountEntry { name: "a".to_string(), document: imap_doc() },
        AccountEntry { name: "b".to_string(), document: imap_doc() },
    ];
    assert_eq!(
        ConfigResolver::select(&accounts, None),
        Err(ConfigError::AccountNotFound { name: String::new() })
    );
}

#[test]
fn disabled_backend_is_reported() {
    let accounts = vec![AccountEntry {
        name: "nm".to_string(),
        document: doc(vec![("notmuch-db-path", text("/db"))]),
    }];
    let r = ConfigResolver { available: BackendAvailability { imap: true, notmuch: false } };
    assert_eq!(
        r.resolve(&accounts, Some("nm")),
        Err(ConfigError::BackendFeatureDisabled { backend: "notmuch".to_string() })
    );
}

#[test]
fn account_metadata_is_read() {
    let accounts = vec![AccountEntry {
        name: "w".to_string(),
        document: doc(vec![
            ("display-name", text("Me")),
            ("email-hooks-pre-send", text("lint-mail")),
            ("sync-folders-strategy", DocValue::Tagged("include".to_string(), folders(&["INBOX"]))),
            ("sendmail-cmd", text("/usr/sbin/sendmail")),
        ]),
    }];
    let r = ConfigResolver { available: all_backends() };
    let acct = r.resolve(&accounts, Some("w")).unwrap();
    assert_eq!(acct.display_name, Some("Me".to_string()));
    assert_eq!(acct.hooks.pre_send, Some("lint-mail".to_string()));
    assert_eq!(acct.sync_strategy, SyncFoldersStrategyDef::Include(folders(&["INBOX"])));
    assert!(matches!(acct.protocol_config(ProtocolKind::Sendmail), Some(ProtocolConfig::Sendmail(_))));
}
