use vstd::prelude::*;
use crate::document::{opt_value, DocValue, DocValueView, Document};
use crate::error::{res_view, ConfigError, ConfigErrorView, OAuth2Error};
use crate::fields::{flag_spec, read_flag, read_text, text_spec, text_value};
use crate::oauth2::{
    fresh_transition, lemma_method_round_trip, refresh_spec, method_text, opt_source, FreshStep, OAuth2Credential,
    OAuth2CredentialView, OAuth2MethodDef, Refreshed, TokenResponse,
};
use crate::secret::{secret_spec, RawSecret, RawSecretView, SecretSource, SecretSourceView, SecretStep};
use crate::text::{copy_text, joined, lower_text, same_text_ignoring_case, texts};

verus! {

/// The keys of an OAuth2 client, under a prefix such as `imap-oauth2`.
#[derive(Clone, Debug, PartialEq, Eq)]
pub struct RawOAuth2 {
    pub method: Option<DocValue>,
    pub client_id: Option<DocValue>,
    pub client_secret: RawSecret,
    pub auth_url: Option<DocValue>,
    pub token_url: Option<DocValue>,
    pub access_token: RawSecret,
    pub refresh_token: RawSecret,
    pub scope: Option<DocValue>,
    pub scopes: Option<DocValue>,
    pub pkce: Option<DocValue>,
}

/// The keys `smtp-oauth2-...` of an SMTP account's OAuth2 client.
pub type SmtpOAuth2ConfigDef = RawOAuth2;

/// The keys `imap-oauth2-...` of an IMAP account's OAuth2 client.
pub type ImapOAuth2ConfigDef = RawOAuth2;

pub struct RawOAuth2View {
    pub method: Option<DocValueView>,
    pub client_id: Option<DocValueView>,
    pub client_secret: RawSecretView,
    pub auth_url: Option<DocValueView>,
    pub token_url: Option<DocValueView>,
    pub access_token: RawSecretView,
    pub refresh_token: RawSecretView,
    pub scope: Option<DocValueView>,
    pub scopes: Option<DocValueView>,
    pub pkce: Option<DocValueView>,
}

impl View for RawOAuth2 {
    type V = RawOAuth2View;

    open spec fn view(&self) -> RawOAuth2View {
        RawOAuth2View {
            method: opt_value(self.method),
            client_id: opt_value(self.client_id),
            client_secret: self.client_secret@,
            auth_url: opt_value(self.auth_url),
            token_url: opt_value(self.token_url),
            access_token: self.access_token@,
            refresh_token: self.refresh_token@,
            scope: opt_value(self.scope),
            scopes: opt_value(self.scopes),
            pkce: opt_value(self.pkce),
        }
    }
}

impl RawOAuth2View {
    /// Whether any key of the OAuth2 shape is written.
    pub open spec fn any_present(self) -> bool {
        self.method is Some || self.client_id is Some || self.client_secret.present() > 0
            || self.auth_url is Some || self.token_url is Some || self.access_token.present() > 0
            || self.refresh_token.present() > 0 || self.scope is Some || self.scopes is Some
            || self.pkce is Some
    }
}

pub open spec fn method_spec(v: Option<DocValueView>, key: Seq<char>) -> Result<
    OAuth2MethodDef,
    ConfigErrorView,
> {
    match v {
        None => Err(ConfigErrorView::MissingRequiredField { field: key }),
        Some(DocValueView::Text(s)) => match OAuth2MethodDef::named(s) {
            Some(m) => Ok(m),
            None => Err(ConfigErrorView::InvalidValue { field: key }),
        },
        Some(_) => Err(ConfigErrorView::InvalidValue { field: key }),
    }
}

/// One scope (`<p>-scope`) or a list (`<p>-scopes`), as a list; exactly one
/// of the two keys is written.
pub open spec fn scopes_spec(
    scope: Option<DocValueView>,
    scopes: Option<DocValueView>,
    p: Seq<char>,
) -> Result<Seq<Seq<char>>, ConfigErrorView> {
    match (scope, scopes) {
        (Some(_), Some(_)) => Err(ConfigErrorView::InvalidValue { field: p + "-scopes"@ }),
        (Some(DocValueView::Text(s)), None) => Ok(seq![s]),
        (Some(_), None) => Err(ConfigErrorView::InvalidValue { field: p + "-scope"@ }),
        (None, Some(DocValueView::List(l))) => Ok(l),
        (None, Some(_)) => Err(ConfigErrorView::InvalidValue { field: p + "-scopes"@ }),
        (None, None) => Err(ConfigErrorView::MissingRequiredField { field: p + "-scopes"@ }),
    }
}

/// A client secret is required, but for a PKCE client that writes none.
pub open spec fn client_secret_spec(raw: RawSecretView, pkce: bool, key: Seq<char>) -> Result<
    Option<SecretSourceView>,
    ConfigErrorView,
> {
    if pkce && raw.present() == 0 {
        Ok(None)
    } else {
        match secret_spec(raw, key) {
            Ok(s) => Ok(Some(s)),
            Err(e) => Err(e),
        }
    }
}

/// The OAuth2 client that the keys under prefix `p` give; the first key in
/// the order method, client id, PKCE flag, client secret, authorization URL,
/// token URL, access token, refresh token, scopes that is wrong gives the
/// error.
pub open spec fn oauth2_spec(raw: RawOAuth2View, p: Seq<char>) -> Result<
    OAuth2CredentialView,
    ConfigErrorView,
> {
    let method = method_spec(raw.method, p + "-method"@);
    let client_id = text_spec(raw.client_id, p + "-client-id"@);
    let pkce = flag_spec(raw.pkce, p + "-pkce"@, false);
    let secret = client_secret_spec(raw.client_secret, pkce->Ok_0, p + "-client-secret"@);
    let auth_url = text_spec(raw.auth_url, p + "-auth-url"@);
    let token_url = text_spec(raw.token_url, p + "-token-url"@);
    let access = secret_spec(raw.access_token, p + "-access-token"@);
    let refresh = secret_spec(raw.refresh_token, p + "-refresh-token"@);
    let scopes = scopes_spec(raw.scope, raw.scopes, p);
    if method is Err {
        Err(method->Err_0)
    } else if client_id is Err {
        Err(client_id->Err_0)
    } else if pkce is Err {
        Err(pkce->Err_0)
    } else if secret is Err {
        Err(secret->Err_0)
    } else if auth_url is Err {
        Err(auth_url->Err_0)
    } else if token_url is Err {
        Err(token_url->Err_0)
    } else if access is Err {
        Err(access->Err_0)
    } else if refresh is Err {
        Err(refresh->Err_0)
    } else if scopes is Err {
        Err(scopes->Err_0)
    } else {
        Ok(
            OAuth2CredentialView {
                method: method->Ok_0,
                client_id: client_id->Ok_0,
                client_secret: secret->Ok_0,
                auth_url: auth_url->Ok_0,
                token_url: token_url->Ok_0,
                access_token: access->Ok_0,
                refresh_token: refresh->Ok_0,
                scopes: scopes->Ok_0,
                pkce: pkce->Ok_0,
                refreshing: false,
            },
        )
    }
}

fn read_method(v: &Option<DocValue>, key: &str) -> (r: Result<OAuth2MethodDef, ConfigError>)
    ensures
        res_view(r) == method_spec(opt_value(*v), key@),
{
    match v {
        None => Err(ConfigError::MissingRequiredField { field: String::from_str(key) }),
        Some(DocValue::Text(s)) => match OAuth2MethodDef::parse(s.as_str()) {
            Some(m) => Ok(m),
            None => Err(ConfigError::InvalidValue { field: String::from_str(key) }),
        },
        Some(_) => Err(ConfigError::InvalidValue { field: String::from_str(key) }),
    }
}

fn read_scopes(scope: &Option<DocValue>, scopes: &Option<DocValue>, p: &str) -> (r: Result<
    Vec<String>,
    ConfigError,
>)
    ensures
        match r {
            Ok(v) => scopes_spec(opt_value(*scope), opt_value(*scopes), p@) == Ok::<
                _,
                ConfigErrorView,
            >(texts(v@)),
            Err(e) => scopes_spec(opt_value(*scope), opt_value(*scopes), p@) == Err::<
                Seq<Seq<char>>,
                _,
            >(e@),
        },
{
    match (scope, scopes) {
        (Some(_), Some(_)) => Err(ConfigError::InvalidValue { field: joined(p, "-scopes") }),
        (Some(DocValue::Text(s)), None) => {
            let mut v: Vec<String> = Vec::new();
            v.push(copy_text(s));
            assert(texts(v@) =~= seq![s@]);
            Ok(v)
        },
        (Some(_), None) => Err(ConfigError::InvalidValue { field: joined(p, "-scope") }),
        (None, Some(DocValue::List(l))) => Ok(crate::text::copy_texts(l)),
        (None, Some(_)) => Err(ConfigError::InvalidValue { field: joined(p, "-scopes") }),
        (None, None) => Err(ConfigError::MissingRequiredField { field: joined(p, "-scopes") }),
    }
}

fn read_client_secret(raw: &RawSecret, pkce: bool, key: &str) -> (r: Result<
    Option<SecretSource>,
    ConfigError,
>)
    ensures
        match r {
            Ok(o) => client_secret_spec(raw@, pkce, key@) == Ok::<_, ConfigErrorView>(
                opt_source(o),
            ),
            Err(e) => client_secret_spec(raw@, pkce, key@) == Err::<Option<SecretSourceView>, _>(
                e@,
            ),
        },
{
    if pkce && raw.plain.is_none() && raw.cmd.is_none() && raw.keyring.is_none() {
        Ok(None)
    } else {
        let s = raw.to_source(key)?;
        Ok(Some(s))
    }
}

impl RawOAuth2 {
    /// The keys of an OAuth2 client under prefix `p`, as the document gives them.
    pub open spec fn read_spec(doc: &Document, p: Seq<char>) -> RawOAuth2View {
        RawOAuth2View {
            method: doc.get_spec(p + "-method"@),
            client_id: doc.get_spec(p + "-client-id"@),
            client_secret: RawSecretView {
                plain: doc.get_spec(p + "-client-secret"@),
                cmd: doc.get_spec(p + "-client-secret"@ + "-cmd"@),
                keyring: doc.get_spec(p + "-client-secret"@ + "-keyring"@),
            },
            auth_url: doc.get_spec(p + "-auth-url"@),
            token_url: doc.get_spec(p + "-token-url"@),
            access_token: RawSecretView {
                plain: doc.get_spec(p + "-access-token"@),
                cmd: doc.get_spec(p + "-access-token"@ + "-cmd"@),
                keyring: doc.get_spec(p + "-access-token"@ + "-keyring"@),
            },
            refresh_token: RawSecretView {
                plain: doc.get_spec(p + "-refresh-token"@),
                cmd: doc.get_spec(p + "-refresh-token"@ + "-cmd"@),
                keyring: doc.get_spec(p + "-refresh-token"@ + "-keyring"@),
            },
            scope: doc.get_spec(p + "-scope"@),
            scopes: doc.get_spec(p + "-scopes"@),
            pkce: doc.get_spec(p + "-pkce"@),
        }
    }

    /// Reads the keys of an OAuth2 client under prefix `p`.
    pub fn read(doc: &Document, p: &str) -> (r: RawOAuth2)
        ensures
            r@ == RawOAuth2::read_spec(doc, p@),
    {
        RawOAuth2 {
            method: doc.get(joined(p, "-method").as_str()),
            client_id: doc.get(joined(p, "-client-id").as_str()),
            client_secret: RawSecret::read(doc, joined(p, "-client-secret").as_str()),
            auth_url: doc.get(joined(p, "-auth-url").as_str()),
            token_url: doc.get(joined(p, "-token-url").as_str()),
            access_token: RawSecret::read(doc, joined(p, "-access-token").as_str()),
            refresh_token: RawSecret::read(doc, joined(p, "-refresh-token").as_str()),
            scope: doc.get(joined(p, "-scope").as_str()),
            scopes: doc.get(joined(p, "-scopes").as_str()),
            pkce: doc.get(joined(p, "-pkce").as_str()),
        }
    }

    /// Whether any key of the OAuth2 shape is written.
    pub fn any_present(&self) -> (r: bool)
        ensures
            r == self@.any_present(),
    {
        self.method.is_some() || self.client_id.is_some() || self.client_secret.plain.is_some()
            || self.client_secret.cmd.is_some() || self.client_secret.keyring.is_some()
            || self.auth_url.is_some() || self.token_url.is_some()
            || self.access_token.plain.is_some() || self.access_token.cmd.is_some()
            || self.access_token.keyring.is_some() || self.refresh_token.plain.is_some()
            || self.refresh_token.cmd.is_some() || self.refresh_token.keyring.is_some()
            || self.scope.is_some() || self.scopes.is_some() || self.pkce.is_some()
    }

    /// The OAuth2 client that the keys under prefix `p` give.
    pub fn to_credential(&self, p: &str) -> (r: Result<OAuth2Credential, ConfigError>)
        ensures
            res_view(r) == oauth2_spec(self@, p@),
    {
        let method = read_method(&self.method, joined(p, "-method").as_str())?;
        let client_id = read_text(&self.client_id, joined(p, "-client-id").as_str())?;
        let pkce = read_flag(&self.pkce, joined(p, "-pkce").as_str(), false)?;
        let client_secret = read_client_secret(
            &self.client_secret,
            pkce,
            joined(p, "-client-secret").as_str(),
        )?;
        let auth_url = read_text(&self.auth_url, joined(p, "-auth-url").as_str())?;
        let token_url = read_text(&self.token_url, joined(p, "-token-url").as_str())?;
        let access_token = self.access_token.to_source(joined(p, "-access-token").as_str())?;
        let refresh_token = self.refresh_token.to_source(joined(p, "-refresh-token").as_str())?;
        let scopes = read_scopes(&self.scope, &self.scopes, p)?;
        Ok(
            OAuth2Credential {
                method,
                client_id,
                client_secret,
                auth_url,
                token_url,
                access_token,
                refresh_token,
                scopes,
                pkce,
                refreshing: false,
            },
        )
    }
}

/// How an OAuth2 client is written back: its scopes as a list, its PKCE
/// flag explicitly, and no client secret key where it has none.
pub open spec fn raw_of_credential(c: OAuth2CredentialView) -> RawOAuth2View {
    RawOAuth2View {
        method: Some(DocValueView::Text(method_text(c.method))),
        client_id: Some(DocValueView::Text(c.client_id)),
        client_secret: match c.client_secret {
            Some(s) => crate::secret::raw_of_secret(s),
            None => RawSecretView { plain: None, cmd: None, keyring: None },
        },
        auth_url: Some(DocValueView::Text(c.auth_url)),
        token_url: Some(DocValueView::Text(c.token_url)),
        access_token: crate::secret::raw_of_secret(c.access_token),
        refresh_token: crate::secret::raw_of_secret(c.refresh_token),
        scope: None,
        scopes: Some(DocValueView::List(c.scopes)),
        pkce: Some(DocValueView::Flag(c.pkce)),
    }
}

/// What resolution can give: no refresh under way, and no client secret only
/// for a PKCE client.
pub open spec fn credential_wf(c: OAuth2CredentialView) -> bool {
    !c.refreshing && (c.client_secret is None ==> c.pkce)
}

/// An OAuth2 client written back into a document reads as the same client.
pub proof fn lemma_credential_round_trip(c: OAuth2CredentialView, p: Seq<char>)
    requires
        credential_wf(c),
    ensures
        oauth2_spec(raw_of_credential(c), p) == Ok::<_, ConfigErrorView>(c),
{
    lemma_method_round_trip(c.method);
    if c.client_secret is Some {
        crate::secret::lemma_secret_round_trip(c.client_secret->Some_0, p + "-client-secret"@);
    }
    crate::secret::lemma_secret_round_trip(c.access_token, p + "-access-token"@);
    crate::secret::lemma_secret_round_trip(c.refresh_token, p + "-refresh-token"@);
}

impl OAuth2Credential {
    /// The keys that write this client back into a document.
    pub fn to_raw(&self) -> (r: RawOAuth2)
        ensures
            r@ == raw_of_credential(self@),
    {
        let client_secret = match &self.client_secret {
            Some(s) => s.to_raw(),
            None => RawSecret { plain: None, cmd: None, keyring: None },
        };
        let method = self.method.name();
        RawOAuth2 {
            method: Some(DocValue::Text(method)),
            client_id: text_value(&self.client_id),
            client_secret,
            auth_url: text_value(&self.auth_url),
            token_url: text_value(&self.token_url),
            access_token: self.access_token.to_raw(),
            refresh_token: self.refresh_token.to_raw(),
            scope: None,
            scopes: Some(DocValue::List(crate::text::copy_texts(&self.scopes))),
            pkce: Some(DocValue::Flag(self.pkce)),
        }
    }
}

/// How an IMAP or SMTP account authenticates.
#[derive(Clone, Debug, PartialEq, Eq)]
pub enum AuthConfig {
    Passwd(SecretSource),
    OAuth2(OAuth2Credential),
}

pub enum AuthConfigView {
    Passwd(SecretSourceView),
    OAuth2(OAuth2CredentialView),
}

impl View for AuthConfig {
    type V = AuthConfigView;

    open spec fn view(&self) -> AuthConfigView {
        match self {
            AuthConfig::Passwd(s) => AuthConfigView::Passwd(s@),
            AuthConfig::OAuth2(c) => AuthConfigView::OAuth2(c@),
        }
    }
}

/// The two authentication shapes.
#[derive(Clone, Copy, Debug, PartialEq, Eq, Structural)]
pub enum AuthKind {
    Passwd,
    OAuth2,
}

impl View for AuthKind {
    type V = AuthKind;

    open spec fn view(&self) -> AuthKind {
        *self
    }
}

/// The shape a tag names, letters compared without regard to case:
/// `passwd` or `password`, and `oauth2`.
pub open spec fn tag_named(t: Seq<char>) -> Option<AuthKind> {
    if lower_text(t) == lower_text("passwd"@) || lower_text(t) == lower_text("password"@) {
        Some(AuthKind::Passwd)
    } else if lower_text(t) == lower_text("oauth2"@) {
        Some(AuthKind::OAuth2)
    } else {
        None
    }
}

pub fn parse_auth_tag(t: &str) -> (r: Option<AuthKind>)
    ensures
        r == tag_named(t@),
{
    if same_text_ignoring_case(t, "passwd") || same_text_ignoring_case(t, "password") {
        Some(AuthKind::Passwd)
    } else if same_text_ignoring_case(t, "oauth2") {
        Some(AuthKind::OAuth2)
    } else {
        None
    }
}

/// The keys of an account's authentication, under a protocol prefix such as
/// `imap`: the tag `<proto>-auth`, the password keys `<proto>-passwd...` and
/// the OAuth2 keys `<proto>-oauth2-...`.
#[derive(Clone, Debug, PartialEq, Eq)]
pub struct RawAuth {
    pub tag: Option<DocValue>,
    pub passwd: RawSecret,
    pub oauth2: RawOAuth2,
}

/// The authentication keys of an SMTP account, tagged by `smtp-auth`.
pub type SmtpAuthConfigDef = RawAuth;

/// The authentication keys of an IMAP account, tagged by `imap-auth`.
pub type ImapAuthConfigDef = RawAuth;

pub struct RawAuthView {
    pub tag: Option<DocValueView>,
    pub passwd: RawSecretView,
    pub oauth2: RawOAuth2View,
}

impl View for RawAuth {
    type V = RawAuthView;

    open spec fn view(&self) -> RawAuthView {
        RawAuthView { tag: opt_value(self.tag), passwd: self.passwd@, oauth2: self.oauth2@ }
    }
}

/// The shape that the keys select: the one the tag names; without a tag, the
/// one shape of which some key is written, where only one is.
pub open spec fn auth_kind_spec(raw: RawAuthView, tag_key: Seq<char>) -> Result<
    AuthKind,
    ConfigErrorView,
> {
    match raw.tag {
        Some(DocValueView::Text(t)) => match tag_named(t) {
            Some(k) => Ok(k),
            None => Err(ConfigErrorView::InvalidAuthShape { field: tag_key }),
        },
        Some(_) => Err(ConfigErrorView::InvalidAuthShape { field: tag_key }),
        None => if raw.passwd.present() > 0 && !raw.oauth2.any_present() {
            Ok(AuthKind::Passwd)
        } else if raw.passwd.present() == 0 && raw.oauth2.any_present() {
            Ok(AuthKind::OAuth2)
        } else {
            Err(ConfigErrorView::InvalidAuthShape { field: tag_key })
        },
    }
}

/// Within the selected shape a missing or malformed key is a malformed
/// shape; errors of a secret's source stay as they are.
pub open spec fn shape_error(e: ConfigErrorView) -> ConfigErrorView {
    match e {
        ConfigErrorView::MissingRequiredField { field } => ConfigErrorView::InvalidAuthShape {
            field,
        },
        ConfigErrorView::InvalidValue { field } => ConfigErrorView::InvalidAuthShape { field },
        _ => e,
    }
}

/// The authentication that the keys under protocol prefix `proto` give.
pub open spec fn auth_spec(raw: RawAuthView, proto: Seq<char>) -> Result<
    AuthConfigView,
    ConfigErrorView,
> {
    match auth_kind_spec(raw, proto + "-auth"@) {
        Err(e) => Err(e),
        Ok(AuthKind::Passwd) => match secret_spec(raw.passwd, proto + "-passwd"@) {
            Ok(s) => Ok(AuthConfigView::Passwd(s)),
            Err(e) => Err(shape_error(e)),
        },
        Ok(AuthKind::OAuth2) => match oauth2_spec(raw.oauth2, proto + "-oauth2"@) {
            Ok(c) => Ok(AuthConfigView::OAuth2(c)),
            Err(e) => Err(shape_error(e)),
        },
    }
}

fn to_shape_error(e: ConfigError) -> (r: ConfigError)
    ensures
        r@ == shape_error(e@),
{
    match e {
        ConfigError::MissingRequiredField { field } => ConfigError::InvalidAuthShape { field },
        ConfigError::InvalidValue { field } => ConfigError::InvalidAuthShape { field },
        _ => e,
    }
}

impl RawAuth {
    /// Reads the authentication keys under protocol prefix `proto`.
    pub fn read(doc: &Document, proto: &str) -> (r: RawAuth)
        ensures
            r@.tag == doc.get_spec(proto@ + "-auth"@),
            r@.passwd.plain == doc.get_spec(proto@ + "-passwd"@),
            r@.passwd.cmd == doc.get_spec(proto@ + "-passwd"@ + "-cmd"@),
            r@.passwd.keyring == doc.get_spec(proto@ + "-passwd"@ + "-keyring"@),
            r@.oauth2 == RawOAuth2::read_spec(doc, proto@ + "-oauth2"@),
    {
        RawAuth {
            tag: doc.get(joined(proto, "-auth").as_str()),
            passwd: RawSecret::read(doc, joined(proto, "-passwd").as_str()),
            oauth2: RawOAuth2::read(doc, joined(proto, "-oauth2").as_str()),
        }
    }

    fn kind(&self, tag_key: &str) -> (r: Result<AuthKind, ConfigError>)
        ensures
            res_view(r) == auth_kind_spec(self@, tag_key@),
    {
        match &self.tag {
            Some(DocValue::Text(t)) => match parse_auth_tag(t.as_str()) {
                Some(k) => Ok(k),
                None => Err(ConfigError::InvalidAuthShape { field: String::from_str(tag_key) }),
            },
            Some(_) => Err(ConfigError::InvalidAuthShape { field: String::from_str(tag_key) }),
            None => {
                let passwd = self.passwd.plain.is_some() || self.passwd.cmd.is_some()
                    || self.passwd.keyring.is_some();
                let oauth2 = self.oauth2.any_present();
                if passwd && !oauth2 {
                    Ok(AuthKind::Passwd)
                } else if !passwd && oauth2 {
                    Ok(AuthKind::OAuth2)
                } else {
                    Err(ConfigError::InvalidAuthShape { field: String::from_str(tag_key) })
                }
            },
        }
    }

    /// The authentication that the keys under protocol prefix `proto` give.
    pub fn to_auth(&self, proto: &str) -> (r: Result<AuthConfig, ConfigError>)
        ensures
            res_view(r) == auth_spec(self@, proto@),
    {
        let kind = self.kind(joined(proto, "-auth").as_str())?;
        match kind {
            AuthKind::Passwd => match self.passwd.to_source(joined(proto, "-passwd").as_str()) {
                Ok(s) => Ok(AuthConfig::Passwd(s)),
                Err(e) => Err(to_shape_error(e)),
            },
            AuthKind::OAuth2 => match self.oauth2.to_credential(joined(proto, "-oauth2").as_str()) {
                Ok(c) => Ok(AuthConfig::OAuth2(c)),
                Err(e) => Err(to_shape_error(e)),
            },
        }
    }
}

/// How an authentication is written back: with its tag, and only the keys of
/// its own shape.
pub open spec fn raw_of_auth(a: AuthConfigView) -> RawAuthView {
    let none_secret = RawSecretView { plain: None, cmd: None, keyring: None };
    match a {
        AuthConfigView::Passwd(s) => RawAuthView {
            tag: Some(DocValueView::Text("passwd"@)),
            passwd: crate::secret::raw_of_secret(s),
            oauth2: RawOAuth2View {
                method: None,
                client_id: None,
                client_secret: none_secret,
                auth_url: None,
                token_url: None,
                access_token: none_secret,
                refresh_token: none_secret,
                scope: None,
                scopes: None,
                pkce: None,
            },
        },
        AuthConfigView::OAuth2(c) => RawAuthView {
            tag: Some(DocValueView::Text("oauth2"@)),
            passwd: none_secret,
            oauth2: raw_of_credential(c),
        },
    }
}

pub open spec fn auth_wf(a: AuthConfigView) -> bool {
    match a {
        AuthConfigView::Passwd(_) => true,
        AuthConfigView::OAuth2(c) => credential_wf(c),
    }
}

/// An authentication written back into a document reads as the same one.
pub proof fn lemma_auth_round_trip(a: AuthConfigView, proto: Seq<char>)
    requires
        auth_wf(a),
    ensures
        auth_spec(raw_of_auth(a), proto) == Ok::<_, ConfigErrorView>(a),
{
    reveal_strlit("passwd");
    reveal_strlit("password");
    reveal_strlit("oauth2");
    match a {
        AuthConfigView::Passwd(s) => {
            crate::secret::lemma_secret_round_trip(s, proto + "-passwd"@);
        },
        AuthConfigView::OAuth2(c) => {
            assert(lower_text("oauth2"@)[0] != lower_text("passwd"@)[0]);
            assert(lower_text("oauth2"@).len() != lower_text("password"@).len());
            lemma_credential_round_trip(c, proto + "-oauth2"@);
        },
    }
}

fn empty_secret() -> (r: RawSecret)
    ensures
        r@ == (RawSecretView { plain: None, cmd: None, keyring: None }),
{
    RawSecret { plain: None, cmd: None, keyring: None }
}

impl AuthConfig {
    /// The keys that write this authentication back into a document.
    pub fn to_raw(&self) -> (r: RawAuth)
        ensures
            r@ == raw_of_auth(self@),
    {
        match self {
            AuthConfig::Passwd(s) => RawAuth {
                tag: Some(DocValue::Text(String::from_str("passwd"))),
                passwd: s.to_raw(),
                oauth2: RawOAuth2 {
                    method: None,
                    client_id: None,
                    client_secret: empty_secret(),
                    auth_url: None,
                    token_url: None,
                    access_token: empty_secret(),
                    refresh_token: empty_secret(),
                    scope: None,
                    scopes: None,
                    pkce: None,
                },
            },
            AuthConfig::OAuth2(c) => RawAuth {
                tag: Some(DocValue::Text(String::from_str("oauth2"))),
                passwd: empty_secret(),
                oauth2: c.to_raw(),
            },
        }
    }
}

impl AuthConfig {
    /// The first step of reading the password, for a password account.
    pub fn current_secret(&self) -> (r: Option<SecretStep>)
        ensures
            match self@ {
                AuthConfigView::Passwd(s) => r is Some && match s {
                    SecretSourceView::Literal(v) => r->Some_0 is Ready && r->Some_0->Ready_0@ == v,
                    SecretSourceView::Command(argv) => r->Some_0 is RunCommand && texts(
                        r->Some_0->RunCommand_0@,
                    ) == argv,
                    SecretSourceView::KeyringRef(k) => r->Some_0 is LookupKeyring
                        && r->Some_0->LookupKeyring_0@ == k,
                },
                AuthConfigView::OAuth2(_) => r is None,
            },
    {
        match self {
            AuthConfig::Passwd(s) => Some(s.resolve()),
            AuthConfig::OAuth2(_) => None,
        }
    }

    /// The next step towards a valid bearer token, for an OAuth2 account,
    /// given whether the stored token is expired or empty.
    pub fn bearer_token(&mut self, expired: bool) -> (r: Option<FreshStep>)
        ensures
            match old(self)@ {
                AuthConfigView::OAuth2(c) => r is Some && final(self)@ is OAuth2 && ({
                    let c2 = final(self)@->OAuth2_0;
                    (c2.refreshing, r->Some_0) == fresh_transition(c.refreshing, expired) && c2 == (
                    OAuth2CredentialView { refreshing: c2.refreshing, ..c })
                }),
                AuthConfigView::Passwd(_) => r is None && final(self)@ == old(self)@,
            },
    {
        match self {
            AuthConfig::OAuth2(c) => Some(c.begin_fresh(expired)),
            AuthConfig::Passwd(_) => None,
        }
    }

    /// Ends a refresh of an OAuth2 account that could not reach the token
    /// endpoint; no token changes.
    pub fn abort_refresh(&mut self)
        ensures
            match old(self)@ {
                AuthConfigView::OAuth2(c) => final(self)@ == AuthConfigView::OAuth2(
                    OAuth2CredentialView { refreshing: false, ..c },
                ),
                AuthConfigView::Passwd(_) => final(self)@ == old(self)@,
            },
    {
        match self {
            AuthConfig::OAuth2(c) => c.abort_refresh(),
            AuthConfig::Passwd(_) => {},
        }
    }

    /// Applies the token endpoint's answer to an OAuth2 account, as
    /// `OAuth2Credential::finish_refresh` does; a password account is left as
    /// it is.
    pub fn finish_refresh(&mut self, resp: &TokenResponse) -> (r: Option<Result<Refreshed, OAuth2Error>>)
        ensures
            old(self)@ is Passwd ==> r is None && final(self)@ == old(self)@,
            old(self)@ is OAuth2 ==> r is Some && final(self)@ is OAuth2 && refresh_spec(
                old(self)@->OAuth2_0,
                final(self)@->OAuth2_0,
                resp,
                r->Some_0,
            ),
    {
        match self {
            AuthConfig::OAuth2(c) => Some(c.finish_refresh(resp)),
            AuthConfig::Passwd(_) => None,
        }
    }
}

/// Under the `passwd` tag, a password written both as a literal and as a
/// command is ambiguous, and a password written in no form is missing.
pub proof fn lemma_passwd_sources(raw: RawAuthView, proto: Seq<char>)
    requires
        raw.tag == Some(DocValueView::Text("passwd"@)),
    ensures
        raw.passwd.plain is Some && raw.passwd.cmd is Some ==> auth_spec(raw, proto) == Err::<
            AuthConfigView,
            _,
        >(
            ConfigErrorView::Secret(
                crate::error::SecretSourceErrorView::AmbiguousSource { field: proto + "-passwd"@ },
            ),
        ),
        raw.passwd.present() == 0 ==> auth_spec(raw, proto) == Err::<AuthConfigView, _>(
            ConfigErrorView::Secret(
                crate::error::SecretSourceErrorView::MissingSource { field: proto + "-passwd"@ },
            ),
        ),
{
}

} // verus!
