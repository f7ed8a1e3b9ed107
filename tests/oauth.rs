use account_auth::auth::{parse_auth_tag, AuthConfig, AuthKind, RawAuth};
use account_auth::document::{DocValue, Document};
use account_auth::error::{ConfigError, OAuth2Error, SecretSourceError};
use account_auth::oauth2::{
    FreshStep, ImapOAuth2ScopesDef, KeyringWrite, OAuth2Credential, OAuth2MethodDef, SmtpOAuth2ScopesDef,
    TokenResponse,
};
use account_auth::secret::{CmdDef, EntryDef, SecretSource, SecretStep};

fn doc(entries: Vec<(&str, DocValue)>) -> Document {
    let mut d = Document::new();
    for (k, v) in entries {
        d.set(k.to_string(), v);
    }
    d
}

fn text(s: &str) -> DocValue {
    DocValue::Text(s.to_string())
}

fn imap_oauth2_doc() -> Document {
    doc(vec![
        ("imap-auth", text("oauth2")),
        ("imap-oauth2-method", text("xoauth2")),
        ("imap-oauth2-client-id", text("client")),
        ("imap-oauth2-client-secret", text("shh")),
        ("imap-oauth2-auth-url", text("https://auth.example/authorize")),
        ("imap-oauth2-token-url", text("https://auth.example/token")),
        ("imap-oauth2-access-token", text("access-1")),
        ("imap-oauth2-refresh-token", text("refresh-1")),
        ("imap-oauth2-scope", text("mail")),
    ])
}

fn credential() -> OAuth2Credential {
    match RawAuth::read(&imap_oauth2_doc(), "imap").to_auth("imap") {
        Ok(AuthConfig::OAuth2(c)) => c,
        other => panic!("unexpected {:?}", other),
    }
}

fn granted(access: &str, refresh: Option<&str>) -> TokenResponse {
    TokenResponse {
        status: 200,
        access_token: Some(access.to_string()),
        refresh_token: refresh.map(|s| s.to_string()),
        error: None,
        body: String::new(),
    }
}

#[test]
fn complete_oauth2_block_resolves() {
    let c = credential();
    assert_eq!(c.method, OAuth2MethodDef::XOAuth2);
    assert_eq!(c.client_id, "client");
    assert_eq!(c.client_secret, Some(SecretSource::Literal("shh".to_string())));
    assert_eq!(c.token_url, "https://auth.example/token");
    assert_eq!(c.scopes, vec!["mail".to_string()]);
    assert!(!c.pkce);
}

#[test]
fn valid_token_is_used_without_refresh() {
    let d = imap_oauth2_doc();
    let mut auth = RawAuth::read(&d, "imap").to_auth("imap").unwrap();
    assert_eq!(auth.bearer_token(false), Some(FreshStep::UseCurrent));
    match &auth {
        AuthConfig::OAuth2(c) => {
            assert_eq!(c.access_token(), SecretStep::Ready("access-1".to_string()));
            assert!(!c.refreshing);
        }
        _ => panic!("not oauth2"),
    }
    assert_eq!(auth.current_secret(), None);
}

#[test]
fn expired_token_is_refreshed_once_then_reused() {
    let mut c = credential();
    assert_eq!(c.begin_fresh(true), FreshStep::Refresh);
    let done = c.finish_refresh(&granted("access-2", None)).unwrap();
    assert_eq!(done.token, "access-2");
    assert!(done.writes.is_empty());
    assert_eq!(c.access_token, SecretSource::Literal("access-2".to_string()));
    assert_eq!(c.refresh_token, SecretSource::Literal("refresh-1".to_string()));
    assert_eq!(c.begin_fresh(false), FreshStep::UseCurrent);
    assert_eq!(c.access_token(), SecretStep::Ready("access-2".to_string()));
}

#[test]
fn concurrent_callers_share_one_refresh() {
    let mut c = credential();
    assert_eq!(c.begin_fresh(true), FreshStep::Refresh);
    assert_eq!(c.begin_fresh(true), FreshStep::Wait);
    c.finish_refresh(&granted("access-2", Some("refresh-2"))).unwrap();
    assert_eq!(c.begin_fresh(false), FreshStep::UseCurrent);
    assert_eq!(c.access_token(), SecretStep::Ready("access-2".to_string()));
    assert_eq!(c.refresh_token, SecretSource::Literal("refresh-2".to_string()));
}

#[test]
fn invalid_grant_is_exhausted_and_keeps_tokens() {
    let mut c = credential();
    let before = c.clone();
    assert_eq!(c.begin_fresh(true), FreshStep::Refresh);
    let resp = TokenResponse {
        status: 400,
        access_token: None,
        refresh_token: None,
        error: Some("invalid_grant".to_string()),
        body: "{\"error\":\"invalid_grant\"}".to_string(),
    };
    assert_eq!(c.finish_refresh(&resp), Err(OAuth2Error::RefreshTokenExhausted));
    assert_eq!(c, before);
}

#[test]
fn endpoint_failure_reports_status_and_body() {
    let mut c = credential();
    let before = c.clone();
    c.begin_fresh(true);
    let resp = TokenResponse {
        status: 503,
        access_token: None,
        refresh_token: None,
        error: None,
        body: "unavailable".to_string(),
    };
    assert_eq!(
        c.finish_refresh(&resp),
        Err(OAuth2Error::TokenEndpointError { status: 503, body: "unavailable".to_string() })
    );
    assert_eq!(c, before);
}

#[test]
fn keyring_tokens_are_written_back() {
    let mut c = credential();
    c.access_token = SecretSource::KeyringRef(EntryDef { key: "work-access".to_string() });
    c.refresh_token = SecretSource::KeyringRef(EntryDef { key: "work-refresh".to_string() });
    c.begin_fresh(true);
    let done = c.finish_refresh(&granted("a2", Some("r2"))).unwrap();
    assert_eq!(
        done.writes,
        vec![
            KeyringWrite { key: "work-access".to_string(), value: "a2".to_string() },
            KeyringWrite { key: "work-refresh".to_string(), value: "r2".to_string() },
        ]
    );
    assert_eq!(c.access_token, SecretSource::KeyringRef(EntryDef { key: "work-access".to_string() }));
}

#[test]
fn command_refresh_token_cannot_take_a_new_one() {
    let mut c = credential();
    c.refresh_token = SecretSource::Command(CmdDef { argv: vec!["get-token".to_string()] });
    let before = c.clone();
    c.begin_fresh(true);
    assert!(matches!(
        c.finish_refresh(&granted("a2", Some("r2"))),
        Err(OAuth2Error::NonPersistableSource { .. })
    ));
    assert_eq!(c, before);
}

#[test]
fn refresh_form_omits_absent_client_secret() {
    let c = credential();
    let with = c.refresh_form(Some("shh".to_string()), "refresh-1".to_string());
    assert_eq!(
        with,
        vec![
            ("grant_type".to_string(), "refresh_token".to_string()),
            ("refresh_token".to_string(), "refresh-1".to_string()),
            ("client_id".to_string(), "client".to_string()),
            ("client_secret".to_string(), "shh".to_string()),
        ]
    );
    let without = c.refresh_form(None, "refresh-1".to_string());
    assert_eq!(without.len(), 3);
    assert_eq!(without[2], ("client_id".to_string(), "client".to_string()));
}

#[test]
fn pkce_client_may_have_no_secret() {
    let mut d = doc(vec![
        ("smtp-oauth2-method", text("OAUTHBEARER")),
        ("smtp-oauth2-client-id", text("client")),
        ("smtp-oauth2-auth-url", text("https://a")),
        ("smtp-oauth2-token-url", text("https://t")),
        ("smtp-oauth2-access-token", text("a")),
        ("smtp-oauth2-refresh-token-keyring", text("k")),
        ("smtp-oauth2-scopes", DocValue::List(vec!["x".to_string(), "y".to_string()])),
    ]);
    let missing = RawAuth::read(&d, "smtp").to_auth("smtp");
    assert_eq!(
        missing,
        Err(ConfigError::Secret(SecretSourceError::MissingSource {
            field: "smtp-oauth2-client-secret".to_string()
        }))
    );
    d.set("smtp-oauth2-pkce".to_string(), DocValue::Flag(true));
    match RawAuth::read(&d, "smtp").to_auth("smtp") {
        Ok(AuthConfig::OAuth2(c)) => {
            assert_eq!(c.method, OAuth2MethodDef::OAuthBearer);
            assert_eq!(c.client_secret, None);
            assert_eq!(c.scopes, vec!["x".to_string(), "y".to_string()]);
            assert_eq!(c.refresh_token, SecretSource::KeyringRef(EntryDef { key: "k".to_string() }));
        }
        other => panic!("unexpected {:?}", other),
    }
}

#[test]
fn oauth2_field_missing_is_invalid_shape() {
    let d = doc(vec![("imap-auth", text("oauth2")), ("imap-oauth2-method", text("xoauth2"))]);
    assert_eq!(
        RawAuth::read(&d, "imap").to_auth("imap"),
        Err(ConfigError::InvalidAuthShape { field: "imap-oauth2-client-id".to_string() })
    );
}

#[test]
fn auth_tag_ignores_case() {
    assert_eq!(parse_auth_tag("OAuth2"), Some(AuthKind::OAuth2));
    assert_eq!(parse_auth_tag("PASSWORD"), Some(AuthKind::Passwd));
    assert_eq!(parse_auth_tag("Passwd"), Some(AuthKind::Passwd));
    assert_eq!(parse_auth_tag("token"), None);
}

#[test]
fn unknown_or_absent_tag_without_one_shape_is_invalid() {
    let d = doc(vec![("imap-auth", text("kerberos")), ("imap-passwd", text("pw"))]);
    assert_eq!(
        RawAuth::read(&d, "imap").to_auth("imap"),
        Err(ConfigError::InvalidAuthShape { field: "imap-auth".to_string() })
    );
    let d = doc(vec![("imap-passwd", text("pw")), ("imap-oauth2-client-id", text("c"))]);
    assert_eq!(
        RawAuth::read(&d, "imap").to_auth("imap"),
        Err(ConfigError::InvalidAuthShape { field: "imap-auth".to_string() })
    );
    let d = doc(vec![]);
    assert_eq!(
        RawAuth::read(&d, "imap").to_auth("imap"),
        Err(ConfigError::InvalidAuthShape { field: "imap-auth".to_string() })
    );
}

#[test]
fn method_names_and_aliases() {
    assert_eq!(OAuth2MethodDef::parse("xoauth2"), Some(OAuth2MethodDef::XOAuth2));
    assert_eq!(OAuth2MethodDef::parse("XOAUTH2"), Some(OAuth2MethodDef::XOAuth2));
    assert_eq!(OAuth2MethodDef::parse("oauthbearer"), Some(OAuth2MethodDef::OAuthBearer));
    assert_eq!(OAuth2MethodDef::parse("OAuthBearer"), None);
    assert_eq!(OAuth2MethodDef::OAuthBearer.name(), "oauthbearer");
}

#[test]
fn scopes_become_a_list() {
    assert_eq!(SmtpOAuth2ScopesDef::Scope("a".to_string()).to_list(), vec!["a".to_string()]);
    assert_eq!(
        ImapOAuth2ScopesDef::Scopes(vec!["a".to_string(), "b".to_string()]).to_list(),
        vec!["a".to_string(), "b".to_string()]
    );
}
