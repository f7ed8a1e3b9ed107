use vstd::prelude::*;
use crate::document::{opt_value, DocValue, DocValueView, Document};
use crate::error::{res_view, ConfigError, ConfigErrorView, SecretSourceError, SecretSourceErrorView};
use crate::text::{copy_text, copy_texts, joined, strip_final_newline, texts, without_final_newline};

verus! {

/// A command that prints a secret on its standard output. A command of one
/// element is a shell command line; a longer one is a program and its
/// arguments.
#[derive(Clone, Debug, PartialEq, Eq)]
pub struct CmdDef {
    pub argv: Vec<String>,
}

/// The key of a keyring entry.
#[derive(Clone, Debug, PartialEq, Eq)]
pub struct EntryDef {
    pub key: String,
}

/// Where a secret comes from.
#[derive(Clone, Debug, PartialEq, Eq)]
pub enum SecretSource {
    Literal(String),
    Command(CmdDef),
    KeyringRef(EntryDef),
}

pub enum SecretSourceView {
    Literal(Seq<char>),
    Command(Seq<Seq<char>>),
    KeyringRef(Seq<char>),
}

impl View for SecretSource {
    type V = SecretSourceView;

    open spec fn view(&self) -> SecretSourceView {
        match self {
            SecretSource::Literal(s) => SecretSourceView::Literal(s@),
            SecretSource::Command(c) => SecretSourceView::Command(texts(c.argv@)),
            SecretSource::KeyringRef(e) => SecretSourceView::KeyringRef(e.key@),
        }
    }
}

/// What it takes to produce a secret: it is at hand, or a command must run,
/// or the keyring must be asked.
#[derive(Clone, Debug, PartialEq, Eq)]
pub enum SecretStep {
    Ready(String),
    RunCommand(Vec<String>),
    LookupKeyring(String),
}

impl SecretSource {
    /// The first step of producing the secret. A literal is at hand; the other
    /// sources are read anew on every call, nothing is cached.
    pub fn resolve(&self) -> (r: SecretStep)
        ensures
            match self@ {
                SecretSourceView::Literal(s) => r is Ready && r->Ready_0@ == s,
                SecretSourceView::Command(argv) => r is RunCommand && texts(r->RunCommand_0@) == argv,
                SecretSourceView::KeyringRef(k) => r is LookupKeyring && r->LookupKeyring_0@ == k,
            },
    {
        match self {
            SecretSource::Literal(s) => SecretStep::Ready(copy_text(s)),
            SecretSource::Command(c) => SecretStep::RunCommand(copy_texts(&c.argv)),
            SecretSource::KeyringRef(e) => SecretStep::LookupKeyring(copy_text(&e.key)),
        }
    }

    pub fn duplicate(&self) -> (r: SecretSource)
        ensures
            r@ == self@,
    {
        match self {
            SecretSource::Literal(s) => SecretSource::Literal(copy_text(s)),
            SecretSource::Command(c) => SecretSource::Command(CmdDef { argv: copy_texts(&c.argv) }),
            SecretSource::KeyringRef(e) => SecretSource::KeyringRef(EntryDef { key: copy_text(&e.key) }),
        }
    }
}

/// The secret printed by a command that ran: its standard output without one
/// final line feed when it exited with status zero, else `CommandFailed`.
/// `exit_code` is `None` where the command could not be started or was
/// stopped by a signal.
pub fn command_result(exit_code: Option<i32>, stdout: &str, stderr: String) -> (r: Result<
    String,
    SecretSourceError,
>)
    ensures
        exit_code == Some(0i32) ==> r is Ok && r->Ok_0@ == without_final_newline(stdout@),
        exit_code != Some(0i32) ==> match r {
            Err(SecretSourceError::CommandFailed { exit_code: c, stderr: e }) => c == exit_code
                && e@ == stderr@,
            _ => false,
        },
{
    match exit_code {
        Some(0i32) => Ok(strip_final_newline(stdout)),
        _ => Err(SecretSourceError::CommandFailed { exit_code, stderr }),
    }
}

/// The secret that the keyring gave for `key`, or `KeyringMiss` where it has
/// none.
pub fn keyring_result(key: &str, found: Option<String>) -> (r: Result<String, SecretSourceError>)
    ensures
        found is Some ==> r is Ok && r->Ok_0@ == found->Some_0@,
        found is None ==> match r {
            Err(SecretSourceError::KeyringMiss { key: k }) => k@ == key@,
            _ => false,
        },
{
    match found {
        Some(s) => Ok(s),
        None => Err(SecretSourceError::KeyringMiss { key: String::from_str(key) }),
    }
}

/// The three keys that may give a secret `<field>`: the literal,
/// `<field>-cmd` and `<field>-keyring`.
#[derive(Clone, Debug, PartialEq, Eq)]
pub struct RawSecret {
    pub plain: Option<DocValue>,
    pub cmd: Option<DocValue>,
    pub keyring: Option<DocValue>,
}

/// The keys `smtp-passwd`, `smtp-passwd-cmd` and `smtp-passwd-keyring`.
pub type SmtpPasswdDef = RawSecret;

/// The keys `imap-passwd`, `imap-passwd-cmd` and `imap-passwd-keyring`.
pub type ImapPasswdDef = RawSecret;

/// The keys `smtp-oauth2-client-secret`, with `-cmd` and `-keyring`.
pub type SmtpOAuth2ClientSecretDef = RawSecret;

/// The keys `imap-oauth2-client-secret`, with `-cmd` and `-keyring`.
pub type ImapOAuth2ClientSecretDef = RawSecret;

/// The keys `smtp-oauth2-access-token`, with `-cmd` and `-keyring`.
pub type SmtpOAuth2AccessTokenDef = RawSecret;

/// The keys `imap-oauth2-access-token`, with `-cmd` and `-keyring`.
pub type ImapOAuth2AccessTokenDef = RawSecret;

/// The keys `smtp-oauth2-refresh-token`, with `-cmd` and `-keyring`.
pub type SmtpOAuth2RefreshTokenDef = RawSecret;

/// The keys `imap-oauth2-refresh-token`, with `-cmd` and `-keyring`.
pub type ImapOAuth2RefreshTokenDef = RawSecret;

pub struct RawSecretView {
    pub plain: Option<DocValueView>,
    pub cmd: Option<DocValueView>,
    pub keyring: Option<DocValueView>,
}

impl View for RawSecret {
    type V = RawSecretView;

    open spec fn view(&self) -> RawSecretView {
        RawSecretView {
            plain: opt_value(self.plain),
            cmd: opt_value(self.cmd),
            keyring: opt_value(self.keyring),
        }
    }
}

pub open spec fn cmd_key(field: Seq<char>) -> Seq<char> {
    field + "-cmd"@
}

pub open spec fn keyring_key(field: Seq<char>) -> Seq<char> {
    field + "-keyring"@
}

/// How the keys of a secret read.
pub enum SecretShape {
    Found(SecretSourceView),
    Ambiguous,
    Missing,
    /// The one key present holds a value of the wrong kind.
    Malformed,
}

impl RawSecretView {
    pub open spec fn present(self) -> nat {
        (if self.plain is Some { 1nat } else { 0nat }) + (if self.cmd is Some { 1nat } else { 0nat })
            + (if self.keyring is Some { 1nat } else { 0nat })
    }

    /// Exactly one key may be set; a literal and a keyring key are text, a
    /// command is text (a shell line) or a list (a program and its arguments).
    pub open spec fn shape(self) -> SecretShape {
        if self.present() > 1 {
            SecretShape::Ambiguous
        } else if self.present() == 0 {
            SecretShape::Missing
        } else if self.plain is Some {
            match self.plain->Some_0 {
                DocValueView::Text(s) => SecretShape::Found(SecretSourceView::Literal(s)),
                _ => SecretShape::Malformed,
            }
        } else if self.cmd is Some {
            match self.cmd->Some_0 {
                DocValueView::Text(s) => SecretShape::Found(SecretSourceView::Command(seq![s])),
                DocValueView::List(v) => SecretShape::Found(SecretSourceView::Command(v)),
                _ => SecretShape::Malformed,
            }
        } else {
            match self.keyring->Some_0 {
                DocValueView::Text(s) => SecretShape::Found(SecretSourceView::KeyringRef(s)),
                _ => SecretShape::Malformed,
            }
        }
    }
}

/// The key whose value is of the wrong kind, for a malformed secret.
pub open spec fn malformed_key(raw: RawSecretView, field: Seq<char>) -> Seq<char> {
    if raw.plain is Some {
        field
    } else if raw.cmd is Some {
        cmd_key(field)
    } else {
        keyring_key(field)
    }
}

/// The source that the keys of secret `field` give, or why they give none.
pub open spec fn secret_spec(raw: RawSecretView, field: Seq<char>) -> Result<
    SecretSourceView,
    ConfigErrorView,
> {
    match raw.shape() {
        SecretShape::Found(v) => Ok(v),
        SecretShape::Ambiguous => Err(
            ConfigErrorView::Secret(SecretSourceErrorView::AmbiguousSource { field }),
        ),
        SecretShape::Missing => Err(
            ConfigErrorView::Secret(SecretSourceErrorView::MissingSource { field }),
        ),
        SecretShape::Malformed => Err(
            ConfigErrorView::InvalidValue { field: malformed_key(raw, field) },
        ),
    }
}

impl RawSecret {
    /// Reads the three keys of secret `field` from the document.
    pub fn read(doc: &Document, field: &str) -> (r: RawSecret)
        ensures
            r@.plain == doc.get_spec(field@),
            r@.cmd == doc.get_spec(cmd_key(field@)),
            r@.keyring == doc.get_spec(keyring_key(field@)),
    {
        let plain = doc.get(field);
        let cmd = doc.get(joined(field, "-cmd").as_str());
        let keyring = doc.get(joined(field, "-keyring").as_str());
        RawSecret { plain, cmd, keyring }
    }

    /// The secret source that the keys of `field` give.
    pub fn to_source(&self, field: &str) -> (r: Result<SecretSource, ConfigError>)
        ensures
            res_view(r) == secret_spec(self@, field@),
    {
        let n: u8 = (if self.plain.is_some() { 1u8 } else { 0u8 }) + (if self.cmd.is_some() {
            1u8
        } else {
            0u8
        }) + (if self.keyring.is_some() { 1u8 } else { 0u8 });
        if n > 1 {
            return Err(
                ConfigError::Secret(SecretSourceError::AmbiguousSource { field: String::from_str(field) }),
            );
        }
        if n == 0 {
            return Err(
                ConfigError::Secret(SecretSourceError::MissingSource { field: String::from_str(field) }),
            );
        }
        match &self.plain {
            Some(DocValue::Text(s)) => {
                return Ok(SecretSource::Literal(copy_text(s)));
            },
            Some(_) => {
                return Err(ConfigError::InvalidValue { field: String::from_str(field) });
            },
            None => {},
        }
        match &self.cmd {
            Some(DocValue::Text(s)) => {
                let mut argv: Vec<String> = Vec::new();
                argv.push(copy_text(s));
                assert(texts(argv@) =~= seq![s@]);
                return Ok(SecretSource::Command(CmdDef { argv }));
            },
            Some(DocValue::List(v)) => {
                return Ok(SecretSource::Command(CmdDef { argv: copy_texts(v) }));
            },
            Some(_) => {
                return Err(ConfigError::InvalidValue { field: joined(field, "-cmd") });
            },
            None => {},
        }
        match &self.keyring {
            Some(DocValue::Text(s)) => Ok(SecretSource::KeyringRef(EntryDef { key: copy_text(s) })),
            _ => Err(ConfigError::InvalidValue { field: joined(field, "-keyring") }),
        }
    }
}

impl SecretSource {
    /// The keys that write this source back into a document.
    pub fn to_raw(&self) -> (r: RawSecret)
        ensures
            r@ == raw_of_secret(self@),
    {
        match self {
            SecretSource::Literal(s) => RawSecret {
                plain: Some(DocValue::Text(copy_text(s))),
                cmd: None,
                keyring: None,
            },
            SecretSource::Command(c) => RawSecret {
                plain: None,
                cmd: Some(DocValue::List(copy_texts(&c.argv))),
                keyring: None,
            },
            SecretSource::KeyringRef(e) => RawSecret {
                plain: None,
                cmd: None,
                keyring: Some(DocValue::Text(copy_text(&e.key))),
            },
        }
    }
}

/// How a source is written back: a literal and a keyring key as text, a
/// command as the list of its arguments.
pub open spec fn raw_of_secret(v: SecretSourceView) -> RawSecretView {
    match v {
        SecretSourceView::Literal(s) => RawSecretView {
            plain: Some(DocValueView::Text(s)),
            cmd: None,
            keyring: None,
        },
        SecretSourceView::Command(argv) => RawSecretView {
            plain: None,
            cmd: Some(DocValueView::List(argv)),
            keyring: None,
        },
        SecretSourceView::KeyringRef(k) => RawSecretView {
            plain: None,
            cmd: None,
            keyring: Some(DocValueView::Text(k)),
        },
    }
}

/// A source written back into a document reads as the same source.
pub proof fn lemma_secret_round_trip(v: SecretSourceView, field: Seq<char>)
    ensures
        secret_spec(raw_of_secret(v), field) == Ok::<_, ConfigErrorView>(v),
{
}

} // verus!
