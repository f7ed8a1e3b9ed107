use vstd::prelude::*;
use crate::auth::{auth_spec, auth_wf, lemma_auth_round_trip, raw_of_auth, AuthConfig, AuthConfigView, RawAuth, RawAuthView};
use crate::document::{opt_value, DocValue, DocValueView, Document};
use crate::error::{res_view, ConfigError, ConfigErrorView};
use crate::fields::{
    flag_spec, opt_list_spec, opt_list_value, opt_text, opt_text_spec, opt_text_value, opt_texts,
    port_spec, read_flag, read_opt_list, read_opt_text, read_port, read_text, text_spec, text_value,
};
use crate::text::joined;

verus! {

/// The connection settings of an IMAP or SMTP server.
#[derive(Clone, Debug, PartialEq, Eq)]
pub struct ServerConfig {
    pub host: String,
    pub port: u16,
    pub ssl: bool,
    pub starttls: bool,
    pub insecure: bool,
    pub login: String,
    pub auth: AuthConfig,
}

pub struct ServerConfigView {
    pub host: Seq<char>,
    pub port: u16,
    pub ssl: bool,
    pub starttls: bool,
    pub insecure: bool,
    pub login: Seq<char>,
    pub auth: AuthConfigView,
}

impl View for ServerConfig {
    type V = ServerConfigView;

    open spec fn view(&self) -> ServerConfigView {
        ServerConfigView {
            host: self.host@,
            port: self.port,
            ssl: self.ssl,
            starttls: self.starttls,
            insecure: self.insecure,
            login: self.login@,
            auth: self.auth@,
        }
    }
}

/// The keys of a server under protocol prefix `<proto>`.
#[derive(Clone, Debug, PartialEq, Eq)]
pub struct RawServer {
    pub host: Option<DocValue>,
    pub port: Option<DocValue>,
    pub ssl: Option<DocValue>,
    pub starttls: Option<DocValue>,
    pub insecure: Option<DocValue>,
    pub login: Option<DocValue>,
    pub auth: RawAuth,
}

pub struct RawServerView {
    pub host: Option<DocValueView>,
    pub port: Option<DocValueView>,
    pub ssl: Option<DocValueView>,
    pub starttls: Option<DocValueView>,
    pub insecure: Option<DocValueView>,
    pub login: Option<DocValueView>,
    pub auth: RawAuthView,
}

impl View for RawServer {
    type V = RawServerView;

    open spec fn view(&self) -> RawServerView {
        RawServerView {
            host: opt_value(self.host),
            port: opt_value(self.port),
            ssl: opt_value(self.ssl),
            starttls: opt_value(self.starttls),
            insecure: opt_value(self.insecure),
            login: opt_value(self.login),
            auth: self.auth@,
        }
    }
}

/// The server that the keys under `proto` give. TLS is on unless
/// `<proto>-ssl` turns it off; STARTTLS and accepting invalid certificates
/// are off unless turned on. The first wrong key in the order host, port,
/// ssl, starttls, insecure, login, authentication gives the error.
pub open spec fn server_spec(raw: RawServerView, proto: Seq<char>) -> Result<
    ServerConfigView,
    ConfigErrorView,
> {
    let host = text_spec(raw.host, proto + "-host"@);
    let port = port_spec(raw.port, proto + "-port"@);
    let ssl = flag_spec(raw.ssl, proto + "-ssl"@, true);
    let starttls = flag_spec(raw.starttls, proto + "-starttls"@, false);
    let insecure = flag_spec(raw.insecure, proto + "-insecure"@, false);
    let login = text_spec(raw.login, proto + "-login"@);
    let auth = auth_spec(raw.auth, proto);
    if host is Err {
        Err(host->Err_0)
    } else if port is Err {
        Err(port->Err_0)
    } else if ssl is Err {
        Err(ssl->Err_0)
    } else if starttls is Err {
        Err(starttls->Err_0)
    } else if insecure is Err {
        Err(insecure->Err_0)
    } else if login is Err {
        Err(login->Err_0)
    } else if auth is Err {
        Err(auth->Err_0)
    } else {
        Ok(
            ServerConfigView {
                host: host->Ok_0,
                port: port->Ok_0,
                ssl: ssl->Ok_0,
                starttls: starttls->Ok_0,
                insecure: insecure->Ok_0,
                login: login->Ok_0,
                auth: auth->Ok_0,
            },
        )
    }
}

impl RawServer {
    /// The keys of a server under `proto`, as the document gives them.
    pub open spec fn read_spec(doc: &Document, proto: Seq<char>) -> RawServerView {
        RawServerView {
            host: doc.get_spec(proto + "-host"@),
            port: doc.get_spec(proto + "-port"@),
            ssl: doc.get_spec(proto + "-ssl"@),
            starttls: doc.get_spec(proto + "-starttls"@),
            insecure: doc.get_spec(proto + "-insecure"@),
            login: doc.get_spec(proto + "-login"@),
            auth: RawAuthView {
                tag: doc.get_spec(proto + "-auth"@),
                passwd: crate::secret::RawSecretView {
                    plain: doc.get_spec(proto + "-passwd"@),
                    cmd: doc.get_spec(proto + "-passwd"@ + "-cmd"@),
                    keyring: doc.get_spec(proto + "-passwd"@ + "-keyring"@),
                },
                oauth2: crate::auth::RawOAuth2::read_spec(doc, proto + "-oauth2"@),
            },
        }
    }

    /// Reads the keys of a server under `proto`.
    pub fn read(doc: &Document, proto: &str) -> (r: RawServer)
        ensures
            r@ == RawServer::read_spec(doc, proto@),
    {
        RawServer {
            host: doc.get(joined(proto, "-host").as_str()),
            port: doc.get(joined(proto, "-port").as_str()),
            ssl: doc.get(joined(proto, "-ssl").as_str()),
            starttls: doc.get(joined(proto, "-starttls").as_str()),
            insecure: doc.get(joined(proto, "-insecure").as_str()),
            login: doc.get(joined(proto, "-login").as_str()),
            auth: RawAuth::read(doc, proto),
        }
    }

    /// The server that the keys under `proto` give.
    pub fn to_server(&self, proto: &str) -> (r: Result<ServerConfig, ConfigError>)
        ensures
            res_view(r) == server_spec(self@, proto@),
    {
        let host = read_text(&self.host, joined(proto, "-host").as_str())?;
        let port = read_port(&self.port, joined(proto, "-port").as_str())?;
        let ssl = read_flag(&self.ssl, joined(proto, "-ssl").as_str(), true)?;
        let starttls = read_flag(&self.starttls, joined(proto, "-starttls").as_str(), false)?;
        let insecure = read_flag(&self.insecure, joined(proto, "-insecure").as_str(), false)?;
        let login = read_text(&self.login, joined(proto, "-login").as_str())?;
        let auth = self.auth.to_auth(proto)?;
        Ok(ServerConfig { host, port, ssl, starttls, insecure, login, auth })
    }
}

/// How a server is written back: every setting explicitly.
pub open spec fn raw_of_server(c: ServerConfigView) -> RawServerView {
    RawServerView {
        host: Some(DocValueView::Text(c.host)),
        port: Some(DocValueView::Number(c.port as u64)),
        ssl: Some(DocValueView::Flag(c.ssl)),
        starttls: Some(DocValueView::Flag(c.starttls)),
        insecure: Some(DocValueView::Flag(c.insecure)),
        login: Some(DocValueView::Text(c.login)),
        auth: raw_of_auth(c.auth),
    }
}

/// A server written back into a document reads as the same server.
pub proof fn lemma_server_round_trip(c: ServerConfigView, proto: Seq<char>)
    requires
        auth_wf(c.auth),
    ensures
        server_spec(raw_of_server(c), proto) == Ok::<_, ConfigErrorView>(c),
{
    lemma_auth_round_trip(c.auth, proto);
}

impl ServerConfig {
    pub fn to_raw(&self) -> (r: RawServer)
        ensures
            r@ == raw_of_server(self@),
    {
        RawServer {
            host: text_value(&self.host),
            port: Some(DocValue::Number(self.port as u64)),
            ssl: Some(DocValue::Flag(self.ssl)),
            starttls: Some(DocValue::Flag(self.starttls)),
            insecure: Some(DocValue::Flag(self.insecure)),
            login: text_value(&self.login),
            auth: self.auth.to_raw(),
        }
    }
}

/// The settings of an IMAP account: its server and the commands run on new
/// messages.
#[derive(Clone, Debug, PartialEq, Eq)]
pub struct ImapConfig {
    pub server: ServerConfig,
    pub notify_cmd: Option<String>,
    pub notify_query: Option<String>,
    pub watch_cmds: Option<Vec<String>>,
}

/// A Maildir store: the directory that holds it.
#[derive(Clone, Debug, PartialEq, Eq)]
pub struct MaildirConfigDef {
    pub root_dir: String,
}

/// A Notmuch store: the path of its database.
#[derive(Clone, Debug, PartialEq, Eq)]
pub struct NotmuchConfigDef {
    pub db_path: String,
}

/// Sending through a sendmail-like command.
#[derive(Clone, Debug, PartialEq, Eq)]
pub struct SendmailConfigDef {
    pub cmd: String,
}

/// The kinds of backend an account may use.
#[derive(Clone, Copy, Debug, PartialEq, Eq, Structural)]
pub enum ProtocolKind {
    Imap,
    Smtp,
    Maildir,
    Notmuch,
    Sendmail,
}

/// The settings of one backend.
#[derive(Clone, Debug, PartialEq, Eq)]
pub enum ProtocolConfig {
    Imap(ImapConfig),
    Smtp(ServerConfig),
    Maildir(MaildirConfigDef),
    Notmuch(NotmuchConfigDef),
    Sendmail(SendmailConfigDef),
}

pub enum ProtocolConfigView {
    Imap {
        server: ServerConfigView,
        notify_cmd: Option<Seq<char>>,
        notify_query: Option<Seq<char>>,
        watch_cmds: Option<Seq<Seq<char>>>,
    },
    Smtp(ServerConfigView),
    Maildir(Seq<char>),
    Notmuch(Seq<char>),
    Sendmail(Seq<char>),
}

impl View for ProtocolConfig {
    type V = ProtocolConfigView;

    open spec fn view(&self) -> ProtocolConfigView {
        match self {
            ProtocolConfig::Imap(c) => ProtocolConfigView::Imap {
                server: c.server@,
                notify_cmd: opt_text(c.notify_cmd),
                notify_query: opt_text(c.notify_query),
                watch_cmds: opt_texts(c.watch_cmds),
            },
            ProtocolConfig::Smtp(c) => ProtocolConfigView::Smtp(c@),
            ProtocolConfig::Maildir(c) => ProtocolConfigView::Maildir(c.root_dir@),
            ProtocolConfig::Notmuch(c) => ProtocolConfigView::Notmuch(c.db_path@),
            ProtocolConfig::Sendmail(c) => ProtocolConfigView::Sendmail(c.cmd@),
        }
    }
}

pub open spec fn kind_of(c: ProtocolConfigView) -> ProtocolKind {
    match c {
        ProtocolConfigView::Imap { .. } => ProtocolKind::Imap,
        ProtocolConfigView::Smtp(_) => ProtocolKind::Smtp,
        ProtocolConfigView::Maildir(_) => ProtocolKind::Maildir,
        ProtocolConfigView::Notmuch(_) => ProtocolKind::Notmuch,
        ProtocolConfigView::Sendmail(_) => ProtocolKind::Sendmail,
    }
}

impl ProtocolConfig {
    pub fn kind(&self) -> (r: ProtocolKind)
        ensures
            r == kind_of(self@),
    {
        match self {
            ProtocolConfig::Imap(_) => ProtocolKind::Imap,
            ProtocolConfig::Smtp(_) => ProtocolKind::Smtp,
            ProtocolConfig::Maildir(_) => ProtocolKind::Maildir,
            ProtocolConfig::Notmuch(_) => ProtocolKind::Notmuch,
            ProtocolConfig::Sendmail(_) => ProtocolKind::Sendmail,
        }
    }

    /// The authentication of an IMAP or SMTP backend.
    pub fn auth(&self) -> (r: Option<&AuthConfig>)
        ensures
            match self@ {
                ProtocolConfigView::Imap { server, .. } => r is Some && r->Some_0@ == server.auth,
                ProtocolConfigView::Smtp(server) => r is Some && r->Some_0@ == server.auth,
                _ => r is None,
            },
    {
        match self {
            ProtocolConfig::Imap(c) => Some(&c.server.auth),
            ProtocolConfig::Smtp(c) => Some(&c.auth),
            _ => None,
        }
    }
}

/// The keys of one backend.
#[derive(Clone, Debug, PartialEq, Eq)]
pub enum RawProtocol {
    Imap {
        server: RawServer,
        notify_cmd: Option<DocValue>,
        notify_query: Option<DocValue>,
        watch_cmds: Option<DocValue>,
    },
    Smtp(RawServer),
    Maildir(Option<DocValue>),
    Notmuch(Option<DocValue>),
    Sendmail(Option<DocValue>),
}

pub enum RawProtocolView {
    Imap {
        server: RawServerView,
        notify_cmd: Option<DocValueView>,
        notify_query: Option<DocValueView>,
        watch_cmds: Option<DocValueView>,
    },
    Smtp(RawServerView),
    Maildir(Option<DocValueView>),
    Notmuch(Option<DocValueView>),
    Sendmail(Option<DocValueView>),
}

impl View for RawProtocol {
    type V = RawProtocolView;

    open spec fn view(&self) -> RawProtocolView {
        match self {
            RawProtocol::Imap { server, notify_cmd, notify_query, watch_cmds } => RawProtocolView::Imap {
                server: server@,
                notify_cmd: opt_value(*notify_cmd),
                notify_query: opt_value(*notify_query),
                watch_cmds: opt_value(*watch_cmds),
            },
            RawProtocol::Smtp(s) => RawProtocolView::Smtp(s@),
            RawProtocol::Maildir(v) => RawProtocolView::Maildir(opt_value(*v)),
            RawProtocol::Notmuch(v) => RawProtocolView::Notmuch(opt_value(*v)),
            RawProtocol::Sendmail(v) => RawProtocolView::Sendmail(opt_value(*v)),
        }
    }
}

/// The backend that its keys give.
pub open spec fn protocol_spec(raw: RawProtocolView) -> Result<ProtocolConfigView, ConfigErrorView> {
    match raw {
        RawProtocolView::Imap { server, notify_cmd, notify_query, watch_cmds } => {
            let server = server_spec(server, "imap"@);
            let notify_cmd = opt_text_spec(notify_cmd, "imap-notify-cmd"@);
            let notify_query = opt_text_spec(notify_query, "imap-notify-query"@);
            let watch_cmds = opt_list_spec(watch_cmds, "imap-watch-cmds"@);
            if server is Err {
                Err(server->Err_0)
            } else if notify_cmd is Err {
                Err(notify_cmd->Err_0)
            } else if notify_query is Err {
                Err(notify_query->Err_0)
            } else if watch_cmds is Err {
                Err(watch_cmds->Err_0)
            } else {
                Ok(
                    ProtocolConfigView::Imap {
                        server: server->Ok_0,
                        notify_cmd: notify_cmd->Ok_0,
                        notify_query: notify_query->Ok_0,
                        watch_cmds: watch_cmds->Ok_0,
                    },
                )
            }
        },
        RawProtocolView::Smtp(server) => match server_spec(server, "smtp"@) {
            Ok(c) => Ok(ProtocolConfigView::Smtp(c)),
            Err(e) => Err(e),
        },
        RawProtocolView::Maildir(v) => match text_spec(v, "maildir-root-dir"@) {
            Ok(s) => Ok(ProtocolConfigView::Maildir(s)),
            Err(e) => Err(e),
        },
        RawProtocolView::Notmuch(v) => match text_spec(v, "notmuch-db-path"@) {
            Ok(s) => Ok(ProtocolConfigView::Notmuch(s)),
            Err(e) => Err(e),
        },
        RawProtocolView::Sendmail(v) => match text_spec(v, "sendmail-cmd"@) {
            Ok(s) => Ok(ProtocolConfigView::Sendmail(s)),
            Err(e) => Err(e),
        },
    }
}

impl RawProtocol {
    /// The kind of backend these keys are for.
    pub open spec fn kind_spec(self) -> ProtocolKind {
        match self {
            RawProtocol::Imap { .. } => ProtocolKind::Imap,
            RawProtocol::Smtp(_) => ProtocolKind::Smtp,
            RawProtocol::Maildir(_) => ProtocolKind::Maildir,
            RawProtocol::Notmuch(_) => ProtocolKind::Notmuch,
            RawProtocol::Sendmail(_) => ProtocolKind::Sendmail,
        }
    }

    /// The keys of a backend of kind `kind`, as the document gives them.
    pub open spec fn read_spec(doc: &Document, kind: ProtocolKind) -> RawProtocolView {
        match kind {
            ProtocolKind::Imap => RawProtocolView::Imap {
                server: RawServer::read_spec(doc, "imap"@),
                notify_cmd: doc.get_spec("imap-notify-cmd"@),
                notify_query: doc.get_spec("imap-notify-query"@),
                watch_cmds: doc.get_spec("imap-watch-cmds"@),
            },
            ProtocolKind::Smtp => RawProtocolView::Smtp(RawServer::read_spec(doc, "smtp"@)),
            ProtocolKind::Maildir => RawProtocolView::Maildir(doc.get_spec("maildir-root-dir"@)),
            ProtocolKind::Notmuch => RawProtocolView::Notmuch(doc.get_spec("notmuch-db-path"@)),
            ProtocolKind::Sendmail => RawProtocolView::Sendmail(doc.get_spec("sendmail-cmd"@)),
        }
    }

    /// Reads the keys of a backend of kind `kind`.
    pub fn read(doc: &Document, kind: ProtocolKind) -> (r: RawProtocol)
        ensures
            r.kind_spec() == kind,
            r@ == RawProtocol::read_spec(doc, kind),
    {
        match kind {
            ProtocolKind::Imap => RawProtocol::Imap {
                server: RawServer::read(doc, "imap"),
                notify_cmd: doc.get("imap-notify-cmd"),
                notify_query: doc.get("imap-notify-query"),
                watch_cmds: doc.get("imap-watch-cmds"),
            },
            ProtocolKind::Smtp => RawProtocol::Smtp(RawServer::read(doc, "smtp")),
            ProtocolKind::Maildir => RawProtocol::Maildir(doc.get("maildir-root-dir")),
            ProtocolKind::Notmuch => RawProtocol::Notmuch(doc.get("notmuch-db-path")),
            ProtocolKind::Sendmail => RawProtocol::Sendmail(doc.get("sendmail-cmd")),
        }
    }

    /// The backend that these keys give.
    pub fn to_protocol(&self) -> (r: Result<ProtocolConfig, ConfigError>)
        ensures
            res_view(r) == protocol_spec(self@),
            r is Ok ==> kind_of(r->Ok_0@) == self.kind_spec(),
    {
        match self {
            RawProtocol::Imap { server, notify_cmd, notify_query, watch_cmds } => {
                let server = server.to_server("imap")?;
                let notify_cmd = read_opt_text(notify_cmd, "imap-notify-cmd")?;
                let notify_query = read_opt_text(notify_query, "imap-notify-query")?;
                let watch_cmds = read_opt_list(watch_cmds, "imap-watch-cmds")?;
                Ok(ProtocolConfig::Imap(ImapConfig { server, notify_cmd, notify_query, watch_cmds }))
            },
            RawProtocol::Smtp(server) => {
                let server = server.to_server("smtp")?;
                Ok(ProtocolConfig::Smtp(server))
            },
            RawProtocol::Maildir(v) => {
                let root_dir = read_text(v, "maildir-root-dir")?;
                Ok(ProtocolConfig::Maildir(MaildirConfigDef { root_dir }))
            },
            RawProtocol::Notmuch(v) => {
                let db_path = read_text(v, "notmuch-db-path")?;
                Ok(ProtocolConfig::Notmuch(NotmuchConfigDef { db_path }))
            },
            RawProtocol::Sendmail(v) => {
                let cmd = read_text(v, "sendmail-cmd")?;
                Ok(ProtocolConfig::Sendmail(SendmailConfigDef { cmd }))
            },
        }
    }
}

/// How a backend is written back into its document form.
pub open spec fn raw_of_protocol(c: ProtocolConfigView) -> RawProtocolView {
    match c {
        ProtocolConfigView::Imap { server, notify_cmd, notify_query, watch_cmds } => RawProtocolView::Imap {
            server: raw_of_server(server),
            notify_cmd: match notify_cmd {
                Some(s) => Some(DocValueView::Text(s)),
                None => None,
            },
            notify_query: match notify_query {
                Some(s) => Some(DocValueView::Text(s)),
                None => None,
            },
            watch_cmds: match watch_cmds {
                Some(l) => Some(DocValueView::List(l)),
                None => None,
            },
        },
        ProtocolConfigView::Smtp(server) => RawProtocolView::Smtp(raw_of_server(server)),
        ProtocolConfigView::Maildir(s) => RawProtocolView::Maildir(Some(DocValueView::Text(s))),
        ProtocolConfigView::Notmuch(s) => RawProtocolView::Notmuch(Some(DocValueView::Text(s))),
        ProtocolConfigView::Sendmail(s) => RawProtocolView::Sendmail(Some(DocValueView::Text(s))),
    }
}

/// What resolution can give: an OAuth2 client with no refresh under way, and
/// without client secret only under PKCE.
pub open spec fn protocol_wf(c: ProtocolConfigView) -> bool {
    match c {
        ProtocolConfigView::Imap { server, .. } => auth_wf(server.auth),
        ProtocolConfigView::Smtp(server) => auth_wf(server.auth),
        _ => true,
    }
}

/// Every backend that resolution gives is well formed.
pub proof fn lemma_resolved_protocol_wf(raw: RawProtocolView)
    requires
        protocol_spec(raw) is Ok,
    ensures
        protocol_wf(protocol_spec(raw)->Ok_0),
{
}

/// A backend, written back into its document form and resolved again,
/// gives the same backend.
pub proof fn lemma_protocol_round_trip(c: ProtocolConfigView)
    requires
        protocol_wf(c),
    ensures
        protocol_spec(raw_of_protocol(c)) == Ok::<_, ConfigErrorView>(c),
{
    match c {
        ProtocolConfigView::Imap { server, .. } => lemma_server_round_trip(server, "imap"@),
        ProtocolConfigView::Smtp(server) => lemma_server_round_trip(server, "smtp"@),
        _ => {},
    }
}

impl ProtocolConfig {
    /// The keys that write this backend back into a document.
    pub fn to_raw(&self) -> (r: RawProtocol)
        ensures
            r@ == raw_of_protocol(self@),
    {
        match self {
            ProtocolConfig::Imap(c) => RawProtocol::Imap {
                server: c.server.to_raw(),
                notify_cmd: opt_text_value(&c.notify_cmd),
                notify_query: opt_text_value(&c.notify_query),
                watch_cmds: opt_list_value(&c.watch_cmds),
            },
            ProtocolConfig::Smtp(c) => RawProtocol::Smtp(c.to_raw()),
            ProtocolConfig::Maildir(c) => RawProtocol::Maildir(text_value(&c.root_dir)),
            ProtocolConfig::Notmuch(c) => RawProtocol::Notmuch(text_value(&c.db_path)),
            ProtocolConfig::Sendmail(c) => RawProtocol::Sendmail(text_value(&c.cmd)),
        }
    }
}

/// A backend resolved from a document, written back into its document form
/// and resolved again, gives the same backend.
pub proof fn lemma_resolved_protocol_round_trip(raw: RawProtocolView)
    requires
        protocol_spec(raw) is Ok,
    ensures
        protocol_spec(raw_of_protocol(protocol_spec(raw)->Ok_0)) == protocol_spec(raw),
{
    lemma_resolved_protocol_wf(raw);
    lemma_protocol_round_trip(protocol_spec(raw)->Ok_0);
}

} // verus!
