use vstd::prelude::*;
use crate::error::OAuth2Error;
use crate::secret::{EntryDef, SecretSource, SecretSourceView};
use crate::text::{copy_text, copy_texts, texts};

verus! {

/// The SASL mechanism that carries the bearer token.
#[derive(Clone, Copy, Debug, PartialEq, Eq, Structural)]
pub enum OAuth2MethodDef {
    XOAuth2,
    OAuthBearer,
}

impl View for OAuth2MethodDef {
    type V = OAuth2MethodDef;

    open spec fn view(&self) -> OAuth2MethodDef {
        *self
    }
}

impl OAuth2MethodDef {
    /// The method a document names: `xoauth2` or `XOAUTH2`, `oauthbearer` or
    /// `OAUTHBEARER`.
    pub open spec fn named(s: Seq<char>) -> Option<OAuth2MethodDef> {
        if s == "xoauth2"@ || s == "XOAUTH2"@ {
            Some(OAuth2MethodDef::XOAuth2)
        } else if s == "oauthbearer"@ || s == "OAUTHBEARER"@ {
            Some(OAuth2MethodDef::OAuthBearer)
        } else {
            None
        }
    }

    pub fn parse(s: &str) -> (r: Option<OAuth2MethodDef>)
        ensures
            r == OAuth2MethodDef::named(s@),
    {
        if crate::text::same_text(s, "xoauth2") || crate::text::same_text(s, "XOAUTH2") {
            Some(OAuth2MethodDef::XOAuth2)
        } else if crate::text::same_text(s, "oauthbearer") || crate::text::same_text(
            s,
            "OAUTHBEARER",
        ) {
            Some(OAuth2MethodDef::OAuthBearer)
        } else {
            None
        }
    }

    /// The name under which the method is written.
    pub fn name(&self) -> (r: String)
        ensures
            r@ == method_text(*self),
            OAuth2MethodDef::named(r@) == Some(*self),
    {
        proof {
            lemma_method_round_trip(*self);
        }
        match self {
            OAuth2MethodDef::XOAuth2 => String::from_str("xoauth2"),
            OAuth2MethodDef::OAuthBearer => String::from_str("oauthbearer"),
        }
    }
}

/// The name under which a method is written.
pub open spec fn method_text(m: OAuth2MethodDef) -> Seq<char> {
    match m {
        OAuth2MethodDef::XOAuth2 => "xoauth2"@,
        OAuth2MethodDef::OAuthBearer => "oauthbearer"@,
    }
}

/// Reading the name of a method gives the method.
pub proof fn lemma_method_round_trip(m: OAuth2MethodDef)
    ensures
        OAuth2MethodDef::named(method_text(m)) == Some(m),
{
    reveal_strlit("xoauth2");
    reveal_strlit("XOAUTH2");
    reveal_strlit("oauthbearer");
    assert("oauthbearer"@.len() != "xoauth2"@.len());
    assert("oauthbearer"@.len() != "XOAUTH2"@.len());
}

/// The scopes of an OAuth2 client as an SMTP account writes them: one scope,
/// or a list.
#[derive(Clone, Debug, PartialEq, Eq)]
pub enum SmtpOAuth2ScopesDef {
    Scope(String),
    Scopes(Vec<String>),
}

/// The scopes of an OAuth2 client as an IMAP account writes them: one scope,
/// or a list.
#[derive(Clone, Debug, PartialEq, Eq)]
pub enum ImapOAuth2ScopesDef {
    Scope(String),
    Scopes(Vec<String>),
}

impl SmtpOAuth2ScopesDef {
    pub fn to_list(&self) -> (r: Vec<String>)
        ensures
            texts(r@) == match self {
                SmtpOAuth2ScopesDef::Scope(s) => seq![s@],
                SmtpOAuth2ScopesDef::Scopes(v) => texts(v@),
            },
    {
        match self {
            SmtpOAuth2ScopesDef::Scope(s) => {
                let mut r: Vec<String> = Vec::new();
                r.push(copy_text(s));
                assert(texts(r@) =~= seq![s@]);
                r
            },
            SmtpOAuth2ScopesDef::Scopes(v) => copy_texts(v),
        }
    }
}

impl ImapOAuth2ScopesDef {
    pub fn to_list(&self) -> (r: Vec<String>)
        ensures
            texts(r@) == match self {
                ImapOAuth2ScopesDef::Scope(s) => seq![s@],
                ImapOAuth2ScopesDef::Scopes(v) => texts(v@),
            },
    {
        match self {
            ImapOAuth2ScopesDef::Scope(s) => {
                let mut r: Vec<String> = Vec::new();
                r.push(copy_text(s));
                assert(texts(r@) =~= seq![s@]);
                r
            },
            ImapOAuth2ScopesDef::Scopes(v) => copy_texts(v),
        }
    }
}

/// An OAuth2 client with its tokens.
#[derive(Clone, Debug, PartialEq, Eq)]
pub struct OAuth2Credential {
    pub method: OAuth2MethodDef,
    pub client_id: String,
    /// `None` only for a PKCE client without a confidential secret.
    pub client_secret: Option<SecretSource>,
    pub auth_url: String,
    pub token_url: String,
    pub access_token: SecretSource,
    pub refresh_token: SecretSource,
    pub scopes: Vec<String>,
    pub pkce: bool,
    /// Whether a refresh-token grant is under way.
    pub refreshing: bool,
}

pub struct OAuth2CredentialView {
    pub method: OAuth2MethodDef,
    pub client_id: Seq<char>,
    pub client_secret: Option<SecretSourceView>,
    pub auth_url: Seq<char>,
    pub token_url: Seq<char>,
    pub access_token: SecretSourceView,
    pub refresh_token: SecretSourceView,
    pub scopes: Seq<Seq<char>>,
    pub pkce: bool,
    pub refreshing: bool,
}

pub open spec fn opt_source(s: Option<SecretSource>) -> Option<SecretSourceView> {
    match s {
        Some(x) => Some(x@),
        None => None,
    }
}

impl View for OAuth2Credential {
    type V = OAuth2CredentialView;

    open spec fn view(&self) -> OAuth2CredentialView {
        OAuth2CredentialView {
            method: self.method,
            client_id: self.client_id@,
            client_secret: opt_source(self.client_secret),
            auth_url: self.auth_url@,
            token_url: self.token_url@,
            access_token: self.access_token@,
            refresh_token: self.refresh_token@,
            scopes: texts(self.scopes@),
            pkce: self.pkce,
            refreshing: self.refreshing,
        }
    }
}

/// What a caller that wants a valid bearer token does next.
#[derive(Debug, PartialEq, Eq, Structural)]
pub enum FreshStep {
    /// Resolve the stored access token: it is valid.
    UseCurrent,
    /// Call the token endpoint with the refresh-token grant, then hand the
    /// answer to `finish_refresh`.
    Refresh,
    /// Another caller's refresh is under way: wait for it, then ask again.
    Wait,
}

/// The next step of a caller, and whether a refresh is under way after it.
pub open spec fn fresh_transition(refreshing: bool, expired: bool) -> (bool, FreshStep) {
    if refreshing {
        (true, FreshStep::Wait)
    } else if expired {
        (true, FreshStep::Refresh)
    } else {
        (false, FreshStep::UseCurrent)
    }
}

/// The answer of the token endpoint to a refresh-token grant.
#[derive(Clone, Debug, PartialEq, Eq)]
pub struct TokenResponse {
    pub status: u16,
    pub access_token: Option<String>,
    pub refresh_token: Option<String>,
    /// The `error` member of a failure answer.
    pub error: Option<String>,
    pub body: String,
}

/// A keyring entry to write with a refreshed token.
#[derive(Clone, Debug, PartialEq, Eq)]
pub struct KeyringWrite {
    pub key: String,
    pub value: String,
}

pub open spec fn is_success_status(status: u16) -> bool {
    200 <= status <= 299
}

/// How a token answer reads.
pub enum GrantOutcome {
    /// A new access token, and a new refresh token where one was issued.
    Granted(Seq<char>, Option<Seq<char>>),
    Exhausted,
    Failed,
}

impl TokenResponse {
    /// `invalid_grant` means the refresh token is spent; any other failure,
    /// or a success without an access token, is an endpoint error.
    pub open spec fn outcome(&self) -> GrantOutcome {
        if self.error is Some && self.error->Some_0@ == "invalid_grant"@ {
            GrantOutcome::Exhausted
        } else if is_success_status(self.status) && self.access_token is Some {
            GrantOutcome::Granted(
                self.access_token->Some_0@,
                match self.refresh_token {
                    Some(t) => Some(t@),
                    None => None,
                },
            )
        } else {
            GrantOutcome::Failed
        }
    }
}

/// Whether a token may be stored back into a source of this kind.
pub open spec fn persistable(s: SecretSourceView) -> bool {
    !(s is Command)
}

/// The source after a new token has been stored in it: a literal now holds
/// it, a keyring reference stays and the keyring is written.
pub open spec fn stored(s: SecretSourceView, token: Seq<char>) -> SecretSourceView {
    match s {
        SecretSourceView::Literal(_) => SecretSourceView::Literal(token),
        _ => s,
    }
}

/// The keyring writes that store `token` into `s`.
pub open spec fn writes_for(s: SecretSourceView, token: Seq<char>) -> Seq<(Seq<char>, Seq<char>)> {
    match s {
        SecretSourceView::KeyringRef(k) => seq![(k, token)],
        _ => seq![],
    }
}

pub open spec fn write_views(v: Seq<KeyringWrite>) -> Seq<(Seq<char>, Seq<char>)> {
    v.map_values(|w: KeyringWrite| (w.key@, w.value@))
}

/// The credential after a refresh granted `access` and maybe a new refresh
/// token.
pub open spec fn after_grant(
    c: OAuth2CredentialView,
    access: Seq<char>,
    refresh: Option<Seq<char>>,
) -> OAuth2CredentialView {
    OAuth2CredentialView {
        access_token: stored(c.access_token, access),
        refresh_token: match refresh {
            Some(t) => stored(c.refresh_token, t),
            None => c.refresh_token,
        },
        refreshing: false,
        ..c
    }
}

/// Whether the tokens that a grant replaces can all be stored back.
pub open spec fn grant_storable(c: OAuth2CredentialView, refresh: Option<Seq<char>>) -> bool {
    persistable(c.access_token) && (refresh is Some ==> persistable(c.refresh_token))
}

/// The outcome of a refresh: the new access token and the keyring writes
/// that persist what changed.
#[derive(Clone, Debug, PartialEq, Eq)]
pub struct Refreshed {
    pub token: String,
    pub writes: Vec<KeyringWrite>,
}

fn store_token(s: &SecretSource, token: &String, writes: &mut Vec<KeyringWrite>) -> (r:
    SecretSource)
    requires
        persistable(s@),
    ensures
        r@ == stored(s@, token@),
        write_views(final(writes)@) == write_views(old(writes)@) + writes_for(s@, token@),
{
    match s {
        SecretSource::KeyringRef(e) => {
            let ghost before = writes@;
            writes.push(KeyringWrite { key: copy_text(&e.key), value: copy_text(token) });
            assert(write_views(writes@) =~= write_views(before) + writes_for(s@, token@));
            SecretSource::KeyringRef(EntryDef { key: copy_text(&e.key) })
        },
        _ => {
            assert(write_views(writes@) =~= write_views(writes@) + writes_for(s@, token@));
            SecretSource::Literal(copy_text(token))
        },
    }
}

/// What a refresh that received `resp` does: on a grant whose tokens can
/// all be stored, the new tokens replace the old ones together and the
/// keyring writes that persist them are returned; on any failure no token
/// changes. Either way the refresh is over.
pub open spec fn refresh_spec(
    before: OAuth2CredentialView,
    after: OAuth2CredentialView,
    resp: &TokenResponse,
    r: Result<Refreshed, OAuth2Error>,
) -> bool {
    match resp.outcome() {
        GrantOutcome::Granted(access, refresh) => if grant_storable(before, refresh) {
            r is Ok && r->Ok_0.token@ == access && after == after_grant(
                before,
                access,
                refresh,
            ) && write_views(r->Ok_0.writes@) == writes_for(before.access_token, access)
                + match refresh {
                Some(t) => writes_for(before.refresh_token, t),
                None => seq![],
            }
        } else {
            r matches Err(OAuth2Error::NonPersistableSource { .. })
                && after == (OAuth2CredentialView { refreshing: false, ..before })
        },
        GrantOutcome::Exhausted => r matches Err(OAuth2Error::RefreshTokenExhausted)
            && after == (OAuth2CredentialView { refreshing: false, ..before }),
        GrantOutcome::Failed => after == (OAuth2CredentialView {
            refreshing: false,
            ..before
        }) && match r {
            Err(OAuth2Error::TokenEndpointError { status, body }) => status == resp.status
                && body@ == resp.body@,
            _ => false,
        },
    }
}

impl OAuth2Credential {
    /// The first step of reading the stored access token.
    pub fn access_token(&self) -> (r: crate::secret::SecretStep)
        ensures
            match self.access_token@ {
                SecretSourceView::Literal(s) => r is Ready && r->Ready_0@ == s,
                SecretSourceView::Command(argv) => r is RunCommand && texts(r->RunCommand_0@)
                    == argv,
                SecretSourceView::KeyringRef(k) => r is LookupKeyring && r->LookupKeyring_0@ == k,
            },
    {
        self.access_token.resolve()
    }

    /// Decides what a caller wanting a valid token does, given whether the
    /// current token is expired (or empty). Only one caller at a time is told
    /// to refresh; the others wait for its outcome.
    pub fn begin_fresh(&mut self, expired: bool) -> (r: FreshStep)
        ensures
            (final(self)@.refreshing, r) == fresh_transition(old(self)@.refreshing, expired),
            final(self)@ == (OAuth2CredentialView { refreshing: final(self)@.refreshing, ..old(self)@ }),
    {
        if self.refreshing {
            FreshStep::Wait
        } else if expired {
            self.refreshing = true;
            FreshStep::Refresh
        } else {
            FreshStep::UseCurrent
        }
    }

    /// Ends a refresh that could not reach the token endpoint (its secrets
    /// could not be produced); no token changes.
    pub fn abort_refresh(&mut self)
        ensures
            final(self)@ == (OAuth2CredentialView { refreshing: false, ..old(self)@ }),
    {
        self.refreshing = false;
    }

    /// Applies the token endpoint's answer. On a grant the new tokens replace
    /// the old ones together; on any failure no token changes. Either way the
    /// refresh is over.
    pub fn finish_refresh(&mut self, resp: &TokenResponse) -> (r: Result<Refreshed, OAuth2Error>)
        ensures
            refresh_spec(old(self)@, final(self)@, resp, r),
    {
        self.refreshing = false;
        if let Some(e) = &resp.error {
            if crate::text::same_text(e.as_str(), "invalid_grant") {
                return Err(OAuth2Error::RefreshTokenExhausted);
            }
        }
        if !(200 <= resp.status && resp.status <= 299) || resp.access_token.is_none() {
            return Err(
                OAuth2Error::TokenEndpointError { status: resp.status, body: copy_text(&resp.body) },
            );
        }
        let access = resp.access_token.as_ref().unwrap();
        if let SecretSource::Command(_) = &self.access_token {
            return Err(OAuth2Error::NonPersistableSource { field: String::from_str("access-token") });
        }
        if resp.refresh_token.is_some() {
            if let SecretSource::Command(_) = &self.refresh_token {
                return Err(
                    OAuth2Error::NonPersistableSource { field: String::from_str("refresh-token") },
                );
            }
        }
        let mut writes: Vec<KeyringWrite> = Vec::new();
        let new_access = store_token(&self.access_token, access, &mut writes);
        let new_refresh = match &resp.refresh_token {
            Some(t) => store_token(&self.refresh_token, t, &mut writes),
            None => self.refresh_token.duplicate(),
        };
        assert(write_views(Seq::<KeyringWrite>::empty()) =~= seq![]);
        self.access_token = new_access;
        self.refresh_token = new_refresh;
        Ok(Refreshed { token: copy_text(access), writes })
    }
}

pub open spec fn form_views(v: Seq<(String, String)>) -> Seq<(Seq<char>, Seq<char>)> {
    v.map_values(|p: (String, String)| (p.0@, p.1@))
}

/// The form fields of a refresh-token grant.
pub open spec fn grant_form(
    client_id: Seq<char>,
    client_secret: Option<Seq<char>>,
    refresh_token: Seq<char>,
) -> Seq<(Seq<char>, Seq<char>)> {
    seq![
        ("grant_type"@, "refresh_token"@),
        ("refresh_token"@, refresh_token),
        ("client_id"@, client_id),
    ] + match client_secret {
        Some(s) => seq![("client_secret"@, s)],
        None => seq![],
    }
}

fn pair(k: &str, v: String) -> (r: (String, String))
    ensures
        r.0@ == k@,
        r.1@ == v@,
{
    (String::from_str(k), v)
}

impl OAuth2Credential {
    /// The form to post to the token endpoint, from the resolved refresh
    /// token and the resolved client secret, if the client has one (a PKCE
    /// client may have none).
    pub fn refresh_form(&self, client_secret: Option<String>, refresh_token: String) -> (r: Vec<
        (String, String),
    >)
        ensures
            form_views(r@) == grant_form(
                self.client_id@,
                match client_secret {
                    Some(s) => Some(s@),
                    None => None,
                },
                refresh_token@,
            ),
    {
        let mut r: Vec<(String, String)> = Vec::new();
        r.push(pair("grant_type", String::from_str("refresh_token")));
        r.push(pair("refresh_token", refresh_token));
        r.push(pair("client_id", copy_text(&self.client_id)));
        match client_secret {
            Some(s) => {
                r.push(pair("client_secret", s));
            },
            None => {},
        }
        assert(form_views(r@) =~= grant_form(
            self.client_id@,
            match client_secret {
                Some(s) => Some(s@),
                None => None,
            },
            refresh_token@,
        ));
        r
    }
}

/// While the token is reported valid, a caller is sent to the stored token
/// and no refresh starts.
pub proof fn lemma_valid_token_needs_no_refresh(c: OAuth2CredentialView)
    requires
        !c.refreshing,
    ensures
        fresh_transition(c.refreshing, false) == (false, FreshStep::UseCurrent),
{
}

/// An expired token is refreshed once: the caller that finds it expired is
/// sent to the token endpoint, and once a grant is stored, a caller that
/// finds the token valid reads the new token (held in memory, or written to
/// the keyring entry it is read from) without another refresh.
pub proof fn lemma_refresh_once_then_reuse(
    c: OAuth2CredentialView,
    after: OAuth2CredentialView,
    resp: &TokenResponse,
    r: Result<Refreshed, OAuth2Error>,
)
    requires
        !c.refreshing,
        refresh_spec(OAuth2CredentialView { refreshing: true, ..c }, after, resp, r),
        r is Ok,
    ensures
        fresh_transition(c.refreshing, true) == (true, FreshStep::Refresh),
        fresh_transition(after.refreshing, false) == (false, FreshStep::UseCurrent),
        r->Ok_0.token@ == resp.access_token->Some_0@,
        c.access_token is Literal ==> after.access_token == SecretSourceView::Literal(
            r->Ok_0.token@,
        ),
        c.access_token is KeyringRef ==> after.access_token == c.access_token && write_views(
            r->Ok_0.writes@,
        )[0] == (c.access_token->KeyringRef_0, r->Ok_0.token@),
{
}

/// Of two callers that both find the token expired, only the first is sent
/// to the token endpoint; the second waits, and once the refresh is over it
/// is sent to the stored token, which after a grant is the refreshed one.
pub proof fn lemma_concurrent_refresh_single_call(
    c: OAuth2CredentialView,
    after: OAuth2CredentialView,
    resp: &TokenResponse,
    r: Result<Refreshed, OAuth2Error>,
)
    requires
        !c.refreshing,
        refresh_spec(OAuth2CredentialView { refreshing: true, ..c }, after, resp, r),
    ensures
        ({
            let (busy, first) = fresh_transition(c.refreshing, true);
            let (_, second) = fresh_transition(busy, true);
            first == FreshStep::Refresh && second == FreshStep::Wait
        }),
        fresh_transition(after.refreshing, false).1 == FreshStep::UseCurrent,
        r is Ok ==> after.access_token == stored(c.access_token, r->Ok_0.token@),
{
}

/// A refresh answered with `invalid_grant`, whatever its status, ends in
/// `RefreshTokenExhausted` and leaves both tokens as they were.
pub proof fn lemma_invalid_grant_keeps_tokens(
    before: OAuth2CredentialView,
    after: OAuth2CredentialView,
    resp: &TokenResponse,
    r: Result<Refreshed, OAuth2Error>,
)
    requires
        resp.error is Some,
        resp.error->Some_0@ == "invalid_grant"@,
        refresh_spec(before, after, resp, r),
    ensures
        r matches Err(OAuth2Error::RefreshTokenExhausted),
        after.access_token == before.access_token,
        after.refresh_token == before.refresh_token,
        after == (OAuth2CredentialView { refreshing: false, ..before }),
{
}

} // verus!
