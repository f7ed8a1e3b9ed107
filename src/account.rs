use vstd::prelude::*;
use crate::document::{DocValueView, Document};
use crate::error::{ConfigError, ConfigErrorView};
use crate::fields::{opt_text, opt_text_spec, read_opt_text};
use crate::protocol::{kind_of, protocol_spec, ProtocolConfig, ProtocolConfigView, ProtocolKind, RawProtocol};
use crate::sync::{strategy_spec, SyncFoldersStrategyDef, SyncFoldersStrategyView};
use crate::text::same_text;

verus! {

/// Hooks run around sending a message.
#[derive(Clone, Debug, PartialEq, Eq)]
pub struct EmailHooksDef {
    /// The command run just before a message is sent.
    pub pre_send: Option<String>,
}

/// How a plain-text body is laid out.
#[derive(Clone, Debug, PartialEq, Eq)]
pub enum EmailTextPlainFormatDef {
    Auto,
    Flowed,
    Fixed(usize),
}

impl Default for EmailTextPlainFormatDef {
    fn default() -> (r: EmailTextPlainFormatDef)
        ensures
            r is Auto,
    {
        EmailTextPlainFormatDef::Auto
    }
}

/// Which optional backends this build offers; the others are always there.
#[derive(Clone, Copy, Debug, PartialEq, Eq, Structural)]
pub struct BackendAvailability {
    pub imap: bool,
    pub notmuch: bool,
}

pub open spec fn offers(a: BackendAvailability, k: ProtocolKind) -> bool {
    match k {
        ProtocolKind::Imap => a.imap,
        ProtocolKind::Notmuch => a.notmuch,
        _ => true,
    }
}

/// The key whose presence says that an account uses a backend.
pub open spec fn marker_key(k: ProtocolKind) -> Seq<char> {
    match k {
        ProtocolKind::Imap => "imap-host"@,
        ProtocolKind::Smtp => "smtp-host"@,
        ProtocolKind::Maildir => "maildir-root-dir"@,
        ProtocolKind::Notmuch => "notmuch-db-path"@,
        ProtocolKind::Sendmail => "sendmail-cmd"@,
    }
}

pub open spec fn backend_name(k: ProtocolKind) -> Seq<char> {
    match k {
        ProtocolKind::Imap => "imap"@,
        ProtocolKind::Smtp => "smtp"@,
        ProtocolKind::Maildir => "maildir"@,
        ProtocolKind::Notmuch => "notmuch"@,
        ProtocolKind::Sendmail => "sendmail"@,
    }
}

/// The backends in the order they are resolved.
pub open spec fn all_kinds() -> Seq<ProtocolKind> {
    seq![
        ProtocolKind::Imap,
        ProtocolKind::Smtp,
        ProtocolKind::Maildir,
        ProtocolKind::Notmuch,
        ProtocolKind::Sendmail,
    ]
}

/// The backends that the document uses among `kinds`, each resolved; the
/// first that is not offered, or whose keys are wrong, gives the error.
pub open spec fn protocols_spec(
    doc: &Document,
    avail: BackendAvailability,
    kinds: Seq<ProtocolKind>,
) -> Result<Seq<ProtocolConfigView>, ConfigErrorView>
    decreases kinds.len(),
{
    if kinds.len() == 0 {
        Ok(seq![])
    } else {
        match protocols_spec(doc, avail, kinds.drop_last()) {
            Err(e) => Err(e),
            Ok(prev) => {
                let k = kinds.last();
                if doc.get_spec(marker_key(k)) is None {
                    Ok(prev)
                } else if !offers(avail, k) {
                    Err(ConfigErrorView::BackendFeatureDisabled { backend: backend_name(k) })
                } else {
                    match protocol_spec(RawProtocol::read_spec(doc, k)) {
                        Ok(c) => Ok(prev.push(c)),
                        Err(e) => Err(e),
                    }
                }
            },
        }
    }
}

pub open spec fn protocol_views(v: Seq<ProtocolConfig>) -> Seq<ProtocolConfigView> {
    v.map_values(|c: ProtocolConfig| c@)
}

/// A resolved account.
#[derive(Clone, Debug, PartialEq, Eq)]
pub struct AccountIdentity {
    pub name: String,
    pub display_name: Option<String>,
    pub signature: Option<String>,
    pub hooks: EmailHooksDef,
    pub sync_strategy: SyncFoldersStrategyDef,
    pub protocols: Vec<ProtocolConfig>,
}

pub struct AccountIdentityView {
    pub name: Seq<char>,
    pub display_name: Option<Seq<char>>,
    pub signature: Option<Seq<char>>,
    pub pre_send: Option<Seq<char>>,
    pub sync_strategy: SyncFoldersStrategyView,
    pub protocols: Seq<ProtocolConfigView>,
}

impl View for AccountIdentity {
    type V = AccountIdentityView;

    open spec fn view(&self) -> AccountIdentityView {
        AccountIdentityView {
            name: self.name@,
            display_name: opt_text(self.display_name),
            signature: opt_text(self.signature),
            pre_send: opt_text(self.hooks.pre_send),
            sync_strategy: self.sync_strategy@,
            protocols: protocol_views(self.protocols@),
        }
    }
}

/// The account that document `doc` of account `name` gives: its general
/// settings, then its backends.
pub open spec fn account_spec(name: Seq<char>, doc: &Document, avail: BackendAvailability) -> Result<
    AccountIdentityView,
    ConfigErrorView,
> {
    let display_name = opt_text_spec(doc.get_spec("display-name"@), "display-name"@);
    let signature = opt_text_spec(doc.get_spec("signature"@), "signature"@);
    let pre_send = opt_text_spec(doc.get_spec("email-hooks-pre-send"@), "email-hooks-pre-send"@);
    let sync = strategy_spec(doc.get_spec("sync-folders-strategy"@), "sync-folders-strategy"@);
    let protocols = protocols_spec(doc, avail, all_kinds());
    if display_name is Err {
        Err(display_name->Err_0)
    } else if signature is Err {
        Err(signature->Err_0)
    } else if pre_send is Err {
        Err(pre_send->Err_0)
    } else if sync is Err {
        Err(sync->Err_0)
    } else if protocols is Err {
        Err(protocols->Err_0)
    } else {
        Ok(
            AccountIdentityView {
                name,
                display_name: display_name->Ok_0,
                signature: signature->Ok_0,
                pre_send: pre_send->Ok_0,
                sync_strategy: sync->Ok_0,
                protocols: protocols->Ok_0,
            },
        )
    }
}

fn kind_at(i: usize) -> (r: ProtocolKind)
    requires
        i < 5,
    ensures
        r == all_kinds()[i as int],
{
    if i == 0 {
        ProtocolKind::Imap
    } else if i == 1 {
        ProtocolKind::Smtp
    } else if i == 2 {
        ProtocolKind::Maildir
    } else if i == 3 {
        ProtocolKind::Notmuch
    } else {
        ProtocolKind::Sendmail
    }
}

fn marker(k: ProtocolKind) -> (r: &'static str)
    ensures
        r@ == marker_key(k),
{
    match k {
        ProtocolKind::Imap => "imap-host",
        ProtocolKind::Smtp => "smtp-host",
        ProtocolKind::Maildir => "maildir-root-dir",
        ProtocolKind::Notmuch => "notmuch-db-path",
        ProtocolKind::Sendmail => "sendmail-cmd",
    }
}

fn name_of(k: ProtocolKind) -> (r: &'static str)
    ensures
        r@ == backend_name(k),
{
    match k {
        ProtocolKind::Imap => "imap",
        ProtocolKind::Smtp => "smtp",
        ProtocolKind::Maildir => "maildir",
        ProtocolKind::Notmuch => "notmuch",
        ProtocolKind::Sendmail => "sendmail",
    }
}

fn offered(a: BackendAvailability, k: ProtocolKind) -> (r: bool)
    ensures
        r == offers(a, k),
{
    match k {
        ProtocolKind::Imap => a.imap,
        ProtocolKind::Notmuch => a.notmuch,
        _ => true,
    }
}

/// Once the backends of a prefix of `kinds` give an error, so do those of
/// every longer prefix.
proof fn lemma_error_persists(
    doc: &Document,
    avail: BackendAvailability,
    kinds: Seq<ProtocolKind>,
    m: int,
    n: int,
)
    requires
        0 <= m <= n <= kinds.len(),
        protocols_spec(doc, avail, kinds.subrange(0, m)) is Err,
    ensures
        protocols_spec(doc, avail, kinds.subrange(0, n)) == protocols_spec(
            doc,
            avail,
            kinds.subrange(0, m),
        ),
    decreases n - m,
{
    if n > m {
        lemma_error_persists(doc, avail, kinds, m, n - 1);
        assert(kinds.subrange(0, n).drop_last() =~= kinds.subrange(0, n - 1));
    }
}

/// The backends that `doc` uses, resolved.
pub fn resolve_protocols(doc: &Document, avail: BackendAvailability) -> (r: Result<
    Vec<ProtocolConfig>,
    ConfigError,
>)
    ensures
        match r {
            Ok(v) => protocols_spec(doc, avail, all_kinds()) == Ok::<_, ConfigErrorView>(
                protocol_views(v@),
            ),
            Err(e) => protocols_spec(doc, avail, all_kinds()) == Err::<
                Seq<ProtocolConfigView>,
                _,
            >(e@),
        },
{
    let mut out: Vec<ProtocolConfig> = Vec::new();
    let mut i: usize = 0;
    assert(all_kinds().subrange(0, 0) =~= seq![]);
    assert(protocol_views(out@) =~= seq![]);
    while i < 5
        invariant
            i <= 5,
            protocols_spec(doc, avail, all_kinds().subrange(0, i as int)) == Ok::<
                _,
                ConfigErrorView,
            >(protocol_views(out@)),
        decreases 5 - i,
    {
        let k = kind_at(i);
        let ghost ks = all_kinds().subrange(0, i + 1);
        assert(ks.drop_last() =~= all_kinds().subrange(0, i as int));
        assert(ks.last() == k);
        if doc.get(marker(k)).is_some() {
            if !offered(avail, k) {
                let e = ConfigError::BackendFeatureDisabled { backend: String::from_str(name_of(k)) };
                proof {
                    lemma_error_persists(doc, avail, all_kinds(), i + 1, 5);
                    assert(all_kinds().subrange(0, 5) =~= all_kinds());
                }
                return Err(e);
            }
            let raw = RawProtocol::read(doc, k);
            match raw.to_protocol() {
                Ok(c) => {
                    let ghost before = out@;
                    out.push(c);
                    assert(protocol_views(out@) =~= protocol_views(before).push(c@));
                },
                Err(e) => {
                    proof {
                        lemma_error_persists(doc, avail, all_kinds(), i + 1, 5);
                        assert(all_kinds().subrange(0, 5) =~= all_kinds());
                    }
                    return Err(e);
                },
            }
        }
        i = i + 1;
    }
    assert(all_kinds().subrange(0, 5) =~= all_kinds());
    Ok(out)
}

/// Resolves the document of account `name`.
pub fn resolve_account(name: &str, doc: &Document, avail: BackendAvailability) -> (r: Result<
    AccountIdentity,
    ConfigError,
>)
    ensures
        crate::error::res_view(r) == account_spec(name@, doc, avail),
{
    let display_name = read_opt_text(&doc.get("display-name"), "display-name")?;
    let signature = read_opt_text(&doc.get("signature"), "signature")?;
    let pre_send = read_opt_text(&doc.get("email-hooks-pre-send"), "email-hooks-pre-send")?;
    let sync_strategy = SyncFoldersStrategyDef::from_value(
        &doc.get("sync-folders-strategy"),
        "sync-folders-strategy",
    )?;
    let protocols = resolve_protocols(doc, avail)?;
    Ok(
        AccountIdentity {
            name: String::from_str(name),
            display_name,
            signature,
            hooks: EmailHooksDef { pre_send },
            sync_strategy,
            protocols,
        },
    )
}

impl AccountIdentity {
    /// The backend of kind `kind`, if the account uses one.
    pub fn protocol_config(&self, kind: ProtocolKind) -> (r: Option<&ProtocolConfig>)
        ensures
            r is None <==> forall|i: int|
                0 <= i < self.protocols@.len() ==> kind_of(#[trigger] self.protocols@[i]@) != kind,
            r is Some ==> exists|i: int|
                0 <= i < self.protocols@.len() && self.protocols@[i]@ == r->Some_0@ && kind_of(
                    #[trigger] self.protocols@[i]@,
                ) == kind,
    {
        let mut i: usize = 0;
        while i < self.protocols.len()
            invariant
                i <= self.protocols@.len(),
                forall|j: int| 0 <= j < i ==> kind_of(#[trigger] self.protocols@[j]@) != kind,
            decreases self.protocols@.len() - i,
        {
            if self.protocols[i].kind() == kind {
                return Some(&self.protocols[i]);
            }
            i = i + 1;
        }
        None
    }
}

/// The document of one account, under its name.
#[derive(Clone, Debug, PartialEq, Eq)]
pub struct AccountEntry {
    pub name: String,
    pub document: Document,
}

/// Whether an account's document marks it as the default one.
pub open spec fn is_default(a: AccountEntry) -> bool {
    a.document.get_spec("default"@) == Some(DocValueView::Flag(true))
}

/// Resolves account documents into an account, with the backends that this
/// build offers.
#[derive(Clone, Debug, PartialEq, Eq)]
pub struct ConfigResolver {
    pub available: BackendAvailability,
}

impl ConfigResolver {
    /// The index of the account to resolve: the first named `name` where a
    /// name is given; else the only account, or the first marked default.
    pub fn select(accounts: &Vec<AccountEntry>, name: Option<&str>) -> (r: Result<usize, ConfigError>)
        ensures
            r is Ok ==> r->Ok_0 < accounts@.len(),
            name is Some && r is Ok ==> accounts@[r->Ok_0 as int].name@ == name->Some_0@
                && forall|j: int| 0 <= j < r->Ok_0 ==> (#[trigger] accounts@[j]).name@ != name->Some_0@,
            name is Some && r is Err ==> forall|j: int|
                0 <= j < accounts@.len() ==> (#[trigger] accounts@[j]).name@ != name->Some_0@,
            name is Some && r is Err ==> match r {
                Err(ConfigError::AccountNotFound { name: m }) => m@ == name->Some_0@,
                _ => false,
            },
            name is None && accounts@.len() == 1 ==> r == Ok::<usize, ConfigError>(0),
            name is None && accounts@.len() != 1 && r is Ok ==> is_default(accounts@[r->Ok_0 as int])
                && forall|j: int| 0 <= j < r->Ok_0 ==> !is_default(#[trigger] accounts@[j]),
            name is None && accounts@.len() != 1 && r is Err ==> forall|j: int|
                0 <= j < accounts@.len() ==> !is_default(#[trigger] accounts@[j]),
            name is None && r is Err ==> match r {
                Err(ConfigError::AccountNotFound { name: m }) => m@.len() == 0,
                _ => false,
            },
    {
        match name {
            Some(n) => {
                let mut i: usize = 0;
                while i < accounts.len()
                    invariant
                        name == Some(n),
                        i <= accounts@.len(),
                        forall|j: int| 0 <= j < i ==> (#[trigger] accounts@[j]).name@ != n@,
                    decreases accounts@.len() - i,
                {
                    let a = &accounts[i];
                    if same_text(a.name.as_str(), n) {
                        assert(accounts@[i as int].name@ == n@);
                        return Ok(i);
                    }
                    i = i + 1;
                }
                Err(ConfigError::AccountNotFound { name: String::from_str(n) })
            },
            None => {
                if accounts.len() == 1 {
                    return Ok(0);
                }
                let mut i: usize = 0;
                while i < accounts.len()
                    invariant
                        name is None,
                        accounts@.len() != 1,
                        i <= accounts@.len(),
                        forall|j: int| 0 <= j < i ==> !is_default(#[trigger] accounts@[j]),
                    decreases accounts@.len() - i,
                {
                    let a = &accounts[i];
                    match a.document.get("default") {
                        Some(crate::document::DocValue::Flag(true)) => {
                            assert(is_default(accounts@[i as int]));
                            return Ok(i);
                        },
                        _ => {},
                    }
                    i = i + 1;
                }
                Err(ConfigError::AccountNotFound { name: String::new() })
            },
        }
    }

    /// Resolves the selected account. Only the shape of the document is
    /// checked: no command runs and the keyring is not read.
    pub fn resolve(&self, accounts: &Vec<AccountEntry>, name: Option<&str>) -> (r: Result<
        AccountIdentity,
        ConfigError,
    >)
        ensures
            match ConfigResolver::select_spec(accounts@, name) {
                Some(i) => crate::error::res_view(r) == account_spec(
                    accounts@[i].name@,
                    &accounts@[i].document,
                    self.available,
                ),
                None => r matches Err(ConfigError::AccountNotFound { .. }),
            },
    {
        let i = ConfigResolver::select(accounts, name)?;
        resolve_account(accounts[i].name.as_str(), &accounts[i].document, self.available)
    }

    /// The account that `select` picks, if any.
    pub open spec fn select_spec(accounts: Seq<AccountEntry>, name: Option<&str>) -> Option<int> {
        match name {
            Some(n) => if exists|i: int| 0 <= i < accounts.len() && (#[trigger] accounts[i]).name@ == n@ {
                Some(choose|i: int| 0 <= i < accounts.len() && (#[trigger] accounts[i]).name@ == n@ && forall|j: int| 0 <= j < i ==> (#[trigger] accounts[j]).name@ != n@)
            } else {
                None
            },
            None => if accounts.len() == 1 {
                Some(0)
            } else if exists|i: int| 0 <= i < accounts.len() && is_default(#[trigger] accounts[i]) {
                Some(choose|i: int| 0 <= i < accounts.len() && is_default(#[trigger] accounts[i]) && forall|j: int| 0 <= j < i ==> !is_default(#[trigger] accounts[j]))
            } else {
                None
            },
        }
    }
}

} // verus!
