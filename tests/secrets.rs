use account_auth::auth::{AuthConfig, RawAuth};
use account_auth::document::{DocValue, Document};
use account_auth::error::{ConfigError, SecretSourceError};
use account_auth::secret::{command_result, keyring_result, CmdDef, EntryDef, RawSecret, SecretSource, SecretStep};

fn doc(entries: Vec<(&str, DocValue)>) -> Document {
    let mut d = Document::new();
    for (k, v) in entries {
        d.set(k.to_string(), v);
    }
    d
}

fn text(s: &str) -> DocValue {
    DocValue::Text(s.to_string())
}

#[test]
fn literal_resolves_to_configured_string() {
    let s = SecretSource::Literal("s3cret\n".to_string());
    assert_eq!(s.resolve(), SecretStep::Ready("s3cret\n".to_string()));
}

#[test]
fn command_source_asks_to_run_its_argv() {
    let s = SecretSource::Command(CmdDef { argv: vec!["pass".to_string(), "show".to_string(), "mail".to_string()] });
    assert_eq!(
        s.resolve(),
        SecretStep::RunCommand(vec!["pass".to_string(), "show".to_string(), "mail".to_string()])
    );
}

#[test]
fn keyring_source_asks_the_keyring() {
    let s = SecretSource::KeyringRef(EntryDef { key: "imap-passwd".to_string() });
    assert_eq!(s.resolve(), SecretStep::LookupKeyring("imap-passwd".to_string()));
}

#[test]
fn command_output_loses_exactly_one_final_newline() {
    assert_eq!(command_result(Some(0), "pw\n\n", String::new()), Ok("pw\n".to_string()));
    assert_eq!(command_result(Some(0), "pw\n", String::new()), Ok("pw".to_string()));
    assert_eq!(command_result(Some(0), "pw", String::new()), Ok("pw".to_string()));
    assert_eq!(command_result(Some(0), "", String::new()), Ok(String::new()));
}

#[test]
fn failing_command_reports_status_and_stderr() {
    assert_eq!(
        command_result(Some(2), "pw\n", "denied".to_string()),
        Err(SecretSourceError::CommandFailed { exit_code: Some(2), stderr: "denied".to_string() })
    );
    assert_eq!(
        command_result(None, "", "not found".to_string()),
        Err(SecretSourceError::CommandFailed { exit_code: None, stderr: "not found".to_string() })
    );
}

#[test]
fn missing_keyring_entry_is_a_miss() {
    assert_eq!(
        keyring_result("smtp-passwd", None),
        Err(SecretSourceError::KeyringMiss { key: "smtp-passwd".to_string() })
    );
    assert_eq!(keyring_result("smtp-passwd", Some("pw".to_string())), Ok("pw".to_string()));
}

#[test]
fn smtp_passwd_and_passwd_cmd_are_ambiguous() {
    let d = doc(vec![
        ("smtp-auth", text("passwd")),
        ("smtp-passwd", text("pw")),
        ("smtp-passwd-cmd", text("pass show mail")),
    ]);
    let raw = RawAuth::read(&d, "smtp");
    assert_eq!(
        raw.to_auth("smtp"),
        Err(ConfigError::Secret(SecretSourceError::AmbiguousSource { field: "smtp-passwd".to_string() }))
    );
}

#[test]
fn smtp_passwd_in_no_form_is_missing() {
    let d = doc(vec![("smtp-auth", text("passwd"))]);
    let raw = RawAuth::read(&d, "smtp");
    assert_eq!(
        raw.to_auth("smtp"),
        Err(ConfigError::Secret(SecretSourceError::MissingSource { field: "smtp-passwd".to_string() }))
    );
}

#[test]
fn passwd_forms_resolve_to_their_sources() {
    let d = doc(vec![("imap-passwd-cmd", text("pass show mail"))]);
    assert_eq!(
        RawAuth::read(&d, "imap").to_auth("imap"),
        Ok(AuthConfig::Passwd(SecretSource::Command(CmdDef { argv: vec!["pass show mail".to_string()] })))
    );
    let d = doc(vec![("imap-auth", text("password")), ("imap-passwd-keyring", text("work"))]);
    assert_eq!(
        RawAuth::read(&d, "imap").to_auth("imap"),
        Ok(AuthConfig::Passwd(SecretSource::KeyringRef(EntryDef { key: "work".to_string() })))
    );
}

#[test]
fn secret_key_of_wrong_kind_is_invalid() {
    let d = doc(vec![("imap-passwd-keyring", DocValue::Flag(true))]);
    let raw = RawSecret::read(&d, "imap-passwd");
    assert_eq!(
        raw.to_source("imap-passwd"),
        Err(ConfigError::InvalidValue { field: "imap-passwd-keyring".to_string() })
    );
}

#[test]
fn secret_written_back_reads_the_same() {
    let s = SecretSource::Command(CmdDef { argv: vec!["a".to_string(), "b".to_string()] });
    assert_eq!(s.to_raw().to_source("x"), Ok(s.clone()));
    let s = SecretSource::Literal("pw".to_string());
    assert_eq!(s.to_raw().to_source("x"), Ok(s.clone()));
}
