//! The document the configuration wizard writes: which sections and keys
//! appear, with keys that hold their default value left out.
//!
//! The document is built here; turning it into TOML text is the caller's
//! (keys that are `None` are not written, nor empty lists marked as such).
use vstd::prelude::*;

use crate::config::{
    copy_opt, copy_rules, copy_strings, node_views, AntiReverseProxyConfig, AntiReverseProxyModel,
    Backend, BackendModel, BackendNode, BackendNodeModel, DirectLink, Disk, Emby, FallbackConfig,
    Frontend, FrontendModel, General, GoogleDriveConfig, Http2, Log, OpenList, PathRewriteConfig,
    RawConfig, RawConfigModel, UserAgent, UserAgentModel, WebDavConfig,
};
use crate::text::{eq_ignore_ascii_case, eq_ignore_case, trim, trim_str};

verus! {

/// `Some(s)` unless `s` is empty.
pub open spec fn unless_empty(s: String) -> Option<String> {
    if s@.len() == 0 {
        None
    } else {
        Some(s)
    }
}

/// A copy of `s` unless it is empty.
pub fn keep_nonempty(s: &String) -> (r: Option<String>)
    ensures
        r == unless_empty(*s),
{
    if s.as_str().is_empty() {
        None
    } else {
        Some(s.clone())
    }
}

/// `[Http2]` as written: each path only when set.
#[derive(Debug, PartialEq)]
pub struct EmitHttp2 {
    pub ssl_cert_file: Option<String>,
    pub ssl_key_file: Option<String>,
}

/// One path rewrite rule as written: `enable` only when true, pattern and
/// replacement only when set.
#[derive(Debug, PartialEq)]
pub struct EmitPathRewrite {
    pub enable: Option<bool>,
    pub pattern: Option<String>,
    pub replacement: Option<String>,
}

/// An anti-reverse-proxy table of a backend node as written.
#[derive(Debug, PartialEq)]
pub struct EmitAntiRev {
    pub enable: Option<bool>,
    pub trusted_hosts: Option<Vec<String>>,
}

/// The contents of an `EmitAntiRev`.
pub struct EmitAntiRevModel {
    pub enable: Option<bool>,
    pub trusted_hosts: Option<Seq<String>>,
}

impl View for EmitAntiRev {
    type V = EmitAntiRevModel;

    open spec fn view(&self) -> EmitAntiRevModel {
        EmitAntiRevModel {
            enable: self.enable,
            trusted_hosts: match self.trusted_hosts {
                Some(v) => Some(v@),
                None => None,
            },
        }
    }
}

/// `[GoogleDrive]` of a backend node as written: each key only when set.
#[derive(Debug, PartialEq)]
pub struct EmitGoogleDrive {
    pub node_uuid: Option<String>,
    pub client_id: Option<String>,
    pub client_secret: Option<String>,
    pub drive_id: Option<String>,
    pub drive_name: Option<String>,
    pub access_token: Option<String>,
    pub refresh_token: Option<String>,
}

/// `[WebDav]` of a backend node as written.
#[derive(Debug, PartialEq)]
pub struct EmitWebDav {
    pub url_mode: Option<String>,
    pub node_uuid: Option<String>,
    pub query_param: Option<String>,
    pub url_template: Option<String>,
    pub username: Option<String>,
    pub password: Option<String>,
    pub user_agent: Option<String>,
}

/// One `[[BackendNode]]` as written.
#[derive(Debug, PartialEq)]
pub struct EmitBackendNode {
    pub name: String,
    pub backend_type: String,
    pub pattern: Option<String>,
    pub base_url: Option<String>,
    pub port: Option<String>,
    pub path: Option<String>,
    pub priority: Option<i32>,
    pub proxy_mode: Option<String>,
    pub client_speed_limit_kbs: Option<u64>,
    pub client_burst_speed_kbs: Option<u64>,
    pub path_rewrites: Vec<EmitPathRewrite>,
    pub anti_reverse_proxy: Option<EmitAntiRev>,
    pub disk: Option<Disk>,
    pub open_list: Option<OpenList>,
    pub direct_link: Option<DirectLink>,
    pub google_drive: Option<EmitGoogleDrive>,
    pub webdav: Option<EmitWebDav>,
}

/// The contents of an `EmitBackendNode`.
pub struct EmitBackendNodeModel {
    pub name: String,
    pub backend_type: String,
    pub pattern: Option<String>,
    pub base_url: Option<String>,
    pub port: Option<String>,
    pub path: Option<String>,
    pub priority: Option<i32>,
    pub proxy_mode: Option<String>,
    pub client_speed_limit_kbs: Option<u64>,
    pub client_burst_speed_kbs: Option<u64>,
    pub path_rewrites: Seq<EmitPathRewrite>,
    pub anti_reverse_proxy: Option<EmitAntiRevModel>,
    pub disk: Option<Disk>,
    pub open_list: Option<OpenList>,
    pub direct_link: Option<DirectLink>,
    pub google_drive: Option<EmitGoogleDrive>,
    pub webdav: Option<EmitWebDav>,
}

impl View for EmitBackendNode {
    type V = EmitBackendNodeModel;

    open spec fn view(&self) -> EmitBackendNodeModel {
        EmitBackendNodeModel {
            name: self.name,
            backend_type: self.backend_type,
            pattern: self.pattern,
            base_url: self.base_url,
            port: self.port,
            path: self.path,
            priority: self.priority,
            proxy_mode: self.proxy_mode,
            client_speed_limit_kbs: self.client_speed_limit_kbs,
            client_burst_speed_kbs: self.client_burst_speed_kbs,
            path_rewrites: self.path_rewrites@,
            anti_reverse_proxy: match self.anti_reverse_proxy {
                Some(a) => Some(a@),
                None => None,
            },
            disk: self.disk,
            open_list: self.open_list,
            direct_link: self.direct_link,
            google_drive: self.google_drive,
            webdav: self.webdav,
        }
    }
}

/// The anti-reverse-proxy table of a frontend as the wizard writes it.
#[derive(Debug, PartialEq)]
pub struct WizardEmitAntiRev {
    pub enable: bool,
    pub trusted_hosts: Vec<String>,
}

/// `[Frontend]` as the wizard writes it.
#[derive(Debug, PartialEq)]
pub struct WizardEmitFrontend {
    pub listen_port: u16,
    pub check_file_existence: bool,
    pub path_rewrites: Vec<EmitPathRewrite>,
    pub anti_reverse_proxy: Option<WizardEmitAntiRev>,
}

/// The contents of a `WizardEmitFrontend`.
pub struct WizardEmitFrontendModel {
    pub listen_port: u16,
    pub check_file_existence: bool,
    pub path_rewrites: Seq<EmitPathRewrite>,
    pub anti_reverse_proxy: Option<AntiReverseProxyModel>,
}

impl View for WizardEmitFrontend {
    type V = WizardEmitFrontendModel;

    open spec fn view(&self) -> WizardEmitFrontendModel {
        WizardEmitFrontendModel {
            listen_port: self.listen_port,
            check_file_existence: self.check_file_existence,
            path_rewrites: self.path_rewrites@,
            anti_reverse_proxy: match self.anti_reverse_proxy {
                Some(a) => Some(AntiReverseProxyModel { enable: a.enable, trusted_hosts: a.trusted_hosts@ }),
                None => None,
            },
        }
    }
}

/// The whole document the wizard writes. The log, general, Emby, user
/// agent, backend and fallback sections are written with every key.
#[derive(Debug, PartialEq)]
pub struct WizardEmitDoc {
    pub log: Log,
    pub general: General,
    pub emby: Emby,
    pub user_agent: UserAgent,
    pub http2: Option<EmitHttp2>,
    pub frontend: Option<WizardEmitFrontend>,
    pub backend: Option<Backend>,
    pub backend_nodes: Vec<EmitBackendNode>,
    pub fallback: FallbackConfig,
}

/// The contents of a `WizardEmitDoc`.
pub struct WizardEmitDocModel {
    pub log: Log,
    pub general: General,
    pub emby: Emby,
    pub user_agent: UserAgentModel,
    pub http2: Option<EmitHttp2>,
    pub frontend: Option<WizardEmitFrontendModel>,
    pub backend: Option<BackendModel>,
    pub backend_nodes: Seq<EmitBackendNodeModel>,
    pub fallback: FallbackConfig,
}

impl View for WizardEmitDoc {
    type V = WizardEmitDocModel;

    open spec fn view(&self) -> WizardEmitDocModel {
        WizardEmitDocModel {
            log: self.log,
            general: self.general,
            emby: self.emby,
            user_agent: self.user_agent@,
            http2: self.http2,
            frontend: match self.frontend {
                Some(f) => Some(f@),
                None => None,
            },
            backend: match self.backend {
                Some(b) => Some(b@),
                None => None,
            },
            backend_nodes: self.backend_nodes@.map_values(|n: EmitBackendNode| n@),
            fallback: self.fallback,
        }
    }
}

// ---- what is written, as spec functions ----

pub open spec fn emit_http2_spec(h: Http2) -> Option<EmitHttp2> {
    if h.ssl_cert_file@.len() == 0 && h.ssl_key_file@.len() == 0 {
        None
    } else {
        Some(EmitHttp2 { ssl_cert_file: unless_empty(h.ssl_cert_file), ssl_key_file: unless_empty(h.ssl_key_file) })
    }
}

pub open spec fn emit_rule_spec(p: PathRewriteConfig) -> EmitPathRewrite {
    EmitPathRewrite {
        enable: if p.enable { Some(true) } else { None },
        pattern: unless_empty(p.pattern),
        replacement: unless_empty(p.replacement),
    }
}

/// A rule is written when it is enabled or has a pattern or a replacement.
pub open spec fn rule_is_written(p: PathRewriteConfig) -> bool {
    p.enable || p.pattern@.len() > 0 || p.replacement@.len() > 0
}

pub open spec fn emit_rules_spec(rules: Seq<PathRewriteConfig>) -> Seq<EmitPathRewrite>
    decreases rules.len(),
{
    if rules.len() == 0 {
        Seq::empty()
    } else {
        let rest = emit_rules_spec(rules.drop_last());
        if rule_is_written(rules.last()) {
            rest.push(emit_rule_spec(rules.last()))
        } else {
            rest
        }
    }
}

/// An anti-reverse-proxy table is left out when it is disabled and lists no
/// trusted host.
pub open spec fn anti_absent(a: AntiReverseProxyModel) -> bool {
    !a.enable && a.trusted_hosts.len() == 0
}

/// An anti-reverse-proxy table as written: `enable` only when true, the
/// hosts only when there are any.
pub open spec fn emit_anti_spec(a: AntiReverseProxyModel) -> EmitAntiRevModel {
    EmitAntiRevModel {
        enable: if a.enable { Some(true) } else { None },
        trusted_hosts: if a.trusted_hosts.len() == 0 { None } else { Some(a.trusted_hosts) },
    }
}

pub open spec fn emit_node_anti_spec(a: AntiReverseProxyModel) -> Option<EmitAntiRevModel> {
    if anti_absent(a) {
        None
    } else {
        Some(emit_anti_spec(a))
    }
}

pub open spec fn google_drive_blank(g: GoogleDriveConfig) -> bool {
    &&& trim(g.node_uuid@).len() == 0
    &&& trim(g.client_id@).len() == 0
    &&& trim(g.client_secret@).len() == 0
    &&& trim(g.drive_id@).len() == 0
    &&& trim(g.drive_name@).len() == 0
    &&& trim(g.access_token@).len() == 0
    &&& trim(g.refresh_token@).len() == 0
}

pub open spec fn emit_google_drive_spec(g: GoogleDriveConfig) -> Option<EmitGoogleDrive> {
    if google_drive_blank(g) {
        None
    } else {
        Some(EmitGoogleDrive {
            node_uuid: unless_empty(g.node_uuid),
            client_id: unless_empty(g.client_id),
            client_secret: unless_empty(g.client_secret),
            drive_id: unless_empty(g.drive_id),
            drive_name: unless_empty(g.drive_name),
            access_token: unless_empty(g.access_token),
            refresh_token: unless_empty(g.refresh_token),
        })
    }
}

/// A WebDAV URL mode that is the default one (`path_join`, or blank).
pub open spec fn default_url_mode(s: Seq<char>) -> bool {
    trim(s).len() == 0 || eq_ignore_case(s, "path_join"@)
}

/// A WebDAV query parameter that is the default one (`path`, or blank).
pub open spec fn default_query_param(s: Seq<char>) -> bool {
    trim(s).len() == 0 || s == "path"@
}

pub open spec fn webdav_blank(w: WebDavConfig) -> bool {
    &&& (trim(w.url_mode@).len() == 0 || eq_ignore_case(trim(w.url_mode@), "path_join"@))
    &&& trim(w.node_uuid@).len() == 0
    &&& trim(w.url_template@).len() == 0
    &&& trim(w.username@).len() == 0
    &&& trim(w.password@).len() == 0
    &&& trim(w.user_agent@).len() == 0
    &&& (trim(w.query_param@).len() == 0 || w.query_param@ == "path"@)
}

pub open spec fn emit_webdav_spec(w: WebDavConfig) -> Option<EmitWebDav> {
    if webdav_blank(w) {
        None
    } else {
        Some(EmitWebDav {
            url_mode: if default_url_mode(w.url_mode@) { None } else { Some(w.url_mode) },
            node_uuid: unless_empty(w.node_uuid),
            query_param: if default_query_param(w.query_param@) { None } else { Some(w.query_param) },
            url_template: unless_empty(w.url_template),
            username: unless_empty(w.username),
            password: unless_empty(w.password),
            user_agent: unless_empty(w.user_agent),
        })
    }
}

pub open spec fn emit_node_spec(n: BackendNodeModel) -> EmitBackendNodeModel {
    EmitBackendNodeModel {
        name: n.name,
        backend_type: n.backend_type,
        pattern: unless_empty(n.pattern),
        base_url: unless_empty(n.base_url),
        port: unless_empty(n.port),
        path: unless_empty(n.path),
        priority: if n.priority == 0 { None } else { Some(n.priority) },
        proxy_mode: if n.proxy_mode@.len() == 0 || n.proxy_mode@ == "redirect"@ { None } else { Some(n.proxy_mode) },
        client_speed_limit_kbs: if n.client_speed_limit_kbs == 0 { None } else { Some(n.client_speed_limit_kbs) },
        client_burst_speed_kbs: if n.client_burst_speed_kbs == 0 { None } else { Some(n.client_burst_speed_kbs) },
        path_rewrites: emit_rules_spec(n.path_rewrites),
        anti_reverse_proxy: emit_node_anti_spec(n.anti_reverse_proxy),
        disk: n.disk,
        open_list: n.open_list,
        direct_link: n.direct_link,
        google_drive: match n.google_drive {
            Some(g) => emit_google_drive_spec(g),
            None => None,
        },
        webdav: match n.webdav {
            Some(w) => emit_webdav_spec(w),
            None => None,
        },
    }
}

pub open spec fn emit_frontend_spec(f: FrontendModel) -> WizardEmitFrontendModel {
    WizardEmitFrontendModel {
        listen_port: f.listen_port,
        check_file_existence: f.check_file_existence,
        path_rewrites: emit_rules_spec(f.path_rewrites),
        anti_reverse_proxy: if anti_absent(f.anti_reverse_proxy) { None } else { Some(f.anti_reverse_proxy) },
    }
}

/// The document the wizard writes for a configuration.
pub open spec fn emit_doc_spec(raw: RawConfigModel) -> WizardEmitDocModel {
    WizardEmitDocModel {
        log: raw.log,
        general: raw.general,
        emby: raw.emby,
        user_agent: raw.user_agent,
        http2: match raw.http2 {
            Some(h) => emit_http2_spec(h),
            None => None,
        },
        frontend: match raw.frontend {
            Some(f) => Some(emit_frontend_spec(f)),
            None => None,
        },
        backend: raw.backend,
        backend_nodes: match raw.backend_nodes {
            Some(ns) => ns.map_values(|n: BackendNodeModel| emit_node_spec(n)),
            None => Seq::empty(),
        },
        fallback: raw.fallback,
    }
}


/// A written backend node keeps every key that holds a value: its name and
/// type, each non-empty text key (`pattern`, `base_url`, `port`, `path`) as
/// it is, a non-zero priority or speed limit, a proxy mode other than
/// `redirect`, and its storage tables. Only an empty or default key is left
/// out.
pub proof fn lemma_emit_node_keeps_set_keys(n: BackendNodeModel)
    ensures
        ({
            let w = emit_node_spec(n);
            &&& w.name == n.name
            &&& w.backend_type == n.backend_type
            &&& (n.pattern@.len() > 0 ==> w.pattern == Some(n.pattern))
            &&& (n.pattern@.len() == 0 ==> w.pattern is None)
            &&& (n.base_url@.len() > 0 ==> w.base_url == Some(n.base_url))
            &&& (n.base_url@.len() == 0 ==> w.base_url is None)
            &&& (n.port@.len() > 0 ==> w.port == Some(n.port))
            &&& (n.port@.len() == 0 ==> w.port is None)
            &&& (n.path@.len() > 0 ==> w.path == Some(n.path))
            &&& (n.path@.len() == 0 ==> w.path is None)
            &&& (n.priority != 0 ==> w.priority == Some(n.priority))
            &&& (n.priority == 0 ==> w.priority is None)
            &&& (n.client_speed_limit_kbs != 0 ==> w.client_speed_limit_kbs == Some(
                n.client_speed_limit_kbs,
            ))
            &&& (n.client_burst_speed_kbs != 0 ==> w.client_burst_speed_kbs == Some(
                n.client_burst_speed_kbs,
            ))
            &&& (n.proxy_mode@.len() > 0 && n.proxy_mode@ != "redirect"@ ==> w.proxy_mode == Some(
                n.proxy_mode,
            ))
            &&& w.disk == n.disk
            &&& w.open_list == n.open_list
            &&& w.direct_link == n.direct_link
        }),
{
}

/// The written document has one node per configured backend node, in order,
/// and the port (like every other non-empty key) of each is written as it
/// is: `port = "60002"` stays in the file.
pub proof fn lemma_emit_doc_keeps_node_ports(raw: RawConfigModel, i: int)
    requires
        raw.backend_nodes is Some,
        0 <= i < raw.backend_nodes->0.len(),
    ensures
        emit_doc_spec(raw).backend_nodes.len() == raw.backend_nodes->0.len(),
        raw.backend_nodes->0[i].port@.len() > 0 ==> emit_doc_spec(raw).backend_nodes[i].port == Some(
            raw.backend_nodes->0[i].port,
        ),
        raw.backend_nodes->0[i].base_url@.len() > 0 ==> emit_doc_spec(raw).backend_nodes[i].base_url
            == Some(raw.backend_nodes->0[i].base_url),
        emit_doc_spec(raw).backend_nodes[i].name == raw.backend_nodes->0[i].name,
{
    lemma_emit_node_keeps_set_keys(raw.backend_nodes->0[i]);
}

proof fn lemma_trim_len_le(s: Seq<char>)
    ensures
        trim(s).len() <= s.len(),
{
    crate::text::lemma_trim_start_shape(s);
    crate::text::lemma_trim_end_shape(crate::text::trim_start(s));
}

/// In the `[Http2]`, `[GoogleDrive]` and `[WebDav]` tables as written, a
/// key that holds text is written as it is: a table with such a key is
/// never left out, nor the key dropped from it.
pub proof fn lemma_emit_tables_keep_set_keys(h: Http2, g: GoogleDriveConfig, w: WebDavConfig)
    ensures
        h.ssl_cert_file@.len() > 0 ==> (emit_http2_spec(h) matches Some(e) && e.ssl_cert_file
            == Some(h.ssl_cert_file)),
        h.ssl_key_file@.len() > 0 ==> (emit_http2_spec(h) matches Some(e) && e.ssl_key_file == Some(
            h.ssl_key_file,
        )),
        trim(g.node_uuid@).len() > 0 ==> (emit_google_drive_spec(g) matches Some(e) && e.node_uuid
            == Some(g.node_uuid)),
        trim(g.client_id@).len() > 0 ==> (emit_google_drive_spec(g) matches Some(e) && e.client_id
            == Some(g.client_id)),
        trim(g.client_secret@).len() > 0 ==> (emit_google_drive_spec(g) matches Some(e)
            && e.client_secret == Some(g.client_secret)),
        trim(g.drive_id@).len() > 0 ==> (emit_google_drive_spec(g) matches Some(e) && e.drive_id
            == Some(g.drive_id)),
        trim(g.drive_name@).len() > 0 ==> (emit_google_drive_spec(g) matches Some(e) && e.drive_name
            == Some(g.drive_name)),
        trim(g.access_token@).len() > 0 ==> (emit_google_drive_spec(g) matches Some(e)
            && e.access_token == Some(g.access_token)),
        trim(g.refresh_token@).len() > 0 ==> (emit_google_drive_spec(g) matches Some(e)
            && e.refresh_token == Some(g.refresh_token)),
        trim(w.node_uuid@).len() > 0 ==> (emit_webdav_spec(w) matches Some(e) && e.node_uuid == Some(
            w.node_uuid,
        )),
        trim(w.url_template@).len() > 0 ==> (emit_webdav_spec(w) matches Some(e) && e.url_template
            == Some(w.url_template)),
        trim(w.username@).len() > 0 ==> (emit_webdav_spec(w) matches Some(e) && e.username == Some(
            w.username,
        )),
        trim(w.password@).len() > 0 ==> (emit_webdav_spec(w) matches Some(e) && e.password == Some(
            w.password,
        )),
        trim(w.user_agent@).len() > 0 ==> (emit_webdav_spec(w) matches Some(e) && e.user_agent
            == Some(w.user_agent)),
{
    lemma_trim_len_le(g.node_uuid@);
    lemma_trim_len_le(g.client_id@);
    lemma_trim_len_le(g.client_secret@);
    lemma_trim_len_le(g.drive_id@);
    lemma_trim_len_le(g.drive_name@);
    lemma_trim_len_le(g.access_token@);
    lemma_trim_len_le(g.refresh_token@);
    lemma_trim_len_le(w.node_uuid@);
    lemma_trim_len_le(w.url_template@);
    lemma_trim_len_le(w.username@);
    lemma_trim_len_le(w.password@);
    lemma_trim_len_le(w.user_agent@);
}

/// Every path rewrite rule that is enabled or has a pattern or a replacement
/// is written, with its pattern and replacement as they are when set.
pub proof fn lemma_emit_rules_keep_written_rules(rules: Seq<PathRewriteConfig>, i: int)
    requires
        0 <= i < rules.len(),
        rules[i].enable || rules[i].pattern@.len() > 0 || rules[i].replacement@.len() > 0,
    ensures
        exists|j: int|
            0 <= j < emit_rules_spec(rules).len() && {
                let e = #[trigger] emit_rules_spec(rules)[j];
                &&& (rules[i].enable ==> e.enable == Some(true))
                &&& (rules[i].pattern@.len() > 0 ==> e.pattern == Some(rules[i].pattern))
                &&& (rules[i].replacement@.len() > 0 ==> e.replacement == Some(
                    rules[i].replacement,
                ))
            },
    decreases rules.len(),
{
    let n = rules.len() - 1;
    let rest = emit_rules_spec(rules.drop_last());
    if i < n {
        lemma_emit_rules_keep_written_rules(rules.drop_last(), i);
        assert(rules.drop_last()[i] == rules[i]);
        let j = choose|j: int|
            0 <= j < rest.len() && {
                let e = #[trigger] rest[j];
                &&& (rules[i].enable ==> e.enable == Some(true))
                &&& (rules[i].pattern@.len() > 0 ==> e.pattern == Some(rules[i].pattern))
                &&& (rules[i].replacement@.len() > 0 ==> e.replacement == Some(
                    rules[i].replacement,
                ))
            };
        if rule_is_written(rules.last()) {
            assert(emit_rules_spec(rules)[j] == rest[j]);
        }
    } else {
        assert(emit_rules_spec(rules)[rest.len() as int] == emit_rule_spec(rules[i]));
    }
}

// ---- building the document ----

/// Whether an `i32` key holds its default (zero).
pub fn is_zero_i32(n: &i32) -> (r: bool)
    ensures
        r == (*n == 0),
{
    *n == 0
}

/// Whether a `u64` key holds its default (zero).
pub fn is_zero_u64(n: &u64) -> (r: bool)
    ensures
        r == (*n == 0),
{
    *n == 0
}

/// Whether a proxy mode is the default one (`redirect`, or empty).
pub fn is_default_redirect(s: &str) -> (r: bool)
    ensures
        r == (s@.len() == 0 || s@ == "redirect"@),
{
    s.is_empty() || crate::playback_service::str_eq(s, "redirect")
}

/// A rule as written.
pub fn map_path_rewrite(p: &PathRewriteConfig) -> (r: EmitPathRewrite)
    ensures
        r == emit_rule_spec(*p),
{
    EmitPathRewrite {
        enable: if p.enable {
            Some(true)
        } else {
            None
        },
        pattern: keep_nonempty(&p.pattern),
        replacement: keep_nonempty(&p.replacement),
    }
}

/// Whether a rule is written at all.
pub fn should_emit_path_rewrite(p: &PathRewriteConfig) -> (r: bool)
    ensures
        r == rule_is_written(*p),
{
    p.enable || !p.pattern.as_str().is_empty() || !p.replacement.as_str().is_empty()
}

/// The written rules, in order.
pub fn map_rules(rules: &Vec<PathRewriteConfig>) -> (r: Vec<EmitPathRewrite>)
    ensures
        r@ == emit_rules_spec(rules@),
{
    let mut out: Vec<EmitPathRewrite> = Vec::new();
    let mut i: usize = 0;
    while i < rules.len()
        invariant
            i <= rules.len(),
            out@ == emit_rules_spec(rules@.take(i as int)),
        decreases rules.len() - i,
    {
        assert(rules@.take(i + 1).drop_last() =~= rules@.take(i as int));
        if should_emit_path_rewrite(&rules[i]) {
            out.push(map_path_rewrite(&rules[i]));
        }
        i = i + 1;
    }
    assert(rules@.take(rules.len() as int) =~= rules@);
    out
}

/// Whether an anti-reverse-proxy table is left out.
pub fn anti_reverse_absent(p: &AntiReverseProxyConfig) -> (r: bool)
    ensures
        r == anti_absent(p@),
{
    !p.enable && p.trusted_hosts.len() == 0
}

/// An anti-reverse-proxy table as written.
pub fn map_anti(p: &AntiReverseProxyConfig) -> (r: EmitAntiRev)
    ensures
        r@ == emit_anti_spec(p@),
{
    EmitAntiRev {
        enable: if p.enable {
            Some(true)
        } else {
            None
        },
        trusted_hosts: if p.trusted_hosts.len() == 0 {
            None
        } else {
            Some(copy_strings(&p.trusted_hosts))
        },
    }
}

/// A backend node's anti-reverse-proxy table as written: left out when it is
/// disabled and lists no host.
pub fn map_anti_opt(p: &AntiReverseProxyConfig) -> (r: Option<EmitAntiRev>)
    ensures
        match r {
            Some(a) => emit_node_anti_spec(p@) == Some(a@),
            None => emit_node_anti_spec(p@) is None,
        },
{
    if anti_reverse_absent(p) {
        None
    } else {
        Some(map_anti(p))
    }
}

/// Whether a string is blank.
fn is_blank(s: &String) -> (r: bool)
    ensures
        r == (trim(s@).len() == 0),
{
    trim_str(s.as_str()).as_str().is_empty()
}

/// Whether a Google Drive table has nothing set.
pub fn should_omit_google_drive_table(g: &GoogleDriveConfig) -> (r: bool)
    ensures
        r == google_drive_blank(*g),
{
    is_blank(&g.node_uuid) && is_blank(&g.client_id) && is_blank(&g.client_secret) && is_blank(
        &g.drive_id,
    ) && is_blank(&g.drive_name) && is_blank(&g.access_token) && is_blank(&g.refresh_token)
}

/// A Google Drive table as written.
pub fn map_google_drive_emit(g: &GoogleDriveConfig) -> (r: Option<EmitGoogleDrive>)
    ensures
        r == emit_google_drive_spec(*g),
{
    if should_omit_google_drive_table(g) {
        return None;
    }
    Some(
        EmitGoogleDrive {
            node_uuid: keep_nonempty(&g.node_uuid),
            client_id: keep_nonempty(&g.client_id),
            client_secret: keep_nonempty(&g.client_secret),
            drive_id: keep_nonempty(&g.drive_id),
            drive_name: keep_nonempty(&g.drive_name),
            access_token: keep_nonempty(&g.access_token),
            refresh_token: keep_nonempty(&g.refresh_token),
        },
    )
}

/// Whether a WebDAV URL mode key is left out.
pub fn skip_webdav_url_mode(s: &str) -> (r: bool)
    ensures
        r == default_url_mode(s@),
{
    trim_str(s).as_str().is_empty() || eq_ignore_ascii_case(s, "path_join")
}

/// Whether a WebDAV query parameter key is left out.
pub fn skip_webdav_query_param(s: &str) -> (r: bool)
    ensures
        r == default_query_param(s@),
{
    trim_str(s).as_str().is_empty() || crate::playback_service::str_eq(s, "path")
}

/// Whether a WebDAV table has nothing but defaults.
pub fn should_omit_webdav_table(w: &WebDavConfig) -> (r: bool)
    ensures
        r == webdav_blank(*w),
{
    let m = trim_str(w.url_mode.as_str());
    let path_join = m.as_str().is_empty() || eq_ignore_ascii_case(m.as_str(), "path_join");
    if !path_join {
        return false;
    }
    is_blank(&w.node_uuid) && is_blank(&w.url_template) && is_blank(&w.username) && is_blank(
        &w.password,
    ) && is_blank(&w.user_agent) && (is_blank(&w.query_param)
        || crate::playback_service::str_eq(w.query_param.as_str(), "path"))
}

/// A WebDAV table as written.
pub fn map_webdav_emit(w: &WebDavConfig) -> (r: Option<EmitWebDav>)
    ensures
        r == emit_webdav_spec(*w),
{
    if should_omit_webdav_table(w) {
        return None;
    }
    Some(
        EmitWebDav {
            url_mode: if skip_webdav_url_mode(w.url_mode.as_str()) {
                None
            } else {
                Some(w.url_mode.clone())
            },
            node_uuid: keep_nonempty(&w.node_uuid),
            query_param: if skip_webdav_query_param(w.query_param.as_str()) {
                None
            } else {
                Some(w.query_param.clone())
            },
            url_template: keep_nonempty(&w.url_template),
            username: keep_nonempty(&w.username),
            password: keep_nonempty(&w.password),
            user_agent: keep_nonempty(&w.user_agent),
        },
    )
}

/// A backend node as written.
pub fn map_node(n: &BackendNode) -> (r: EmitBackendNode)
    ensures
        r@ == emit_node_spec(n@),
{
    let google_drive = match &n.google_drive {
        Some(g) => map_google_drive_emit(g),
        None => None,
    };
    let webdav = match &n.webdav {
        Some(w) => map_webdav_emit(w),
        None => None,
    };
    let disk = copy_opt(&n.disk);
    let open_list = copy_opt(&n.open_list);
    let direct_link = copy_opt(&n.direct_link);
    EmitBackendNode {
        name: n.name.clone(),
        backend_type: n.backend_type.clone(),
        pattern: keep_nonempty(&n.pattern),
        base_url: keep_nonempty(&n.base_url),
        port: keep_nonempty(&n.port),
        path: keep_nonempty(&n.path),
        priority: if is_zero_i32(&n.priority) {
            None
        } else {
            Some(n.priority)
        },
        proxy_mode: if is_default_redirect(n.proxy_mode.as_str()) {
            None
        } else {
            Some(n.proxy_mode.clone())
        },
        client_speed_limit_kbs: if is_zero_u64(&n.client_speed_limit_kbs) {
            None
        } else {
            Some(n.client_speed_limit_kbs)
        },
        client_burst_speed_kbs: if is_zero_u64(&n.client_burst_speed_kbs) {
            None
        } else {
            Some(n.client_burst_speed_kbs)
        },
        path_rewrites: map_rules(&n.path_rewrites),
        anti_reverse_proxy: map_anti_opt(&n.anti_reverse_proxy),
        disk,
        open_list,
        direct_link,
        google_drive,
        webdav,
    }
}

/// `[Http2]` as written: left out when both paths are empty.
pub fn map_http2(h: &Http2) -> (r: Option<EmitHttp2>)
    ensures
        r == emit_http2_spec(*h),
{
    if h.ssl_cert_file.as_str().is_empty() && h.ssl_key_file.as_str().is_empty() {
        return None;
    }
    Some(
        EmitHttp2 {
            ssl_cert_file: keep_nonempty(&h.ssl_cert_file),
            ssl_key_file: keep_nonempty(&h.ssl_key_file),
        },
    )
}

/// A frontend's anti-reverse-proxy table as the wizard writes it.
pub fn map_anti_wizard_opt(p: &AntiReverseProxyConfig) -> (r: Option<WizardEmitAntiRev>)
    ensures
        match r {
            Some(a) => !anti_absent(p@) && a.enable == p.enable && a.trusted_hosts@ == p.trusted_hosts@,
            None => anti_absent(p@),
        },
{
    if anti_reverse_absent(p) {
        None
    } else {
        Some(WizardEmitAntiRev { enable: p.enable, trusted_hosts: copy_strings(&p.trusted_hosts) })
    }
}

/// `[Frontend]` as the wizard writes it.
pub fn map_frontend_wizard(f: &Frontend) -> (r: WizardEmitFrontend)
    ensures
        r@ == emit_frontend_spec(f@),
{
    WizardEmitFrontend {
        listen_port: f.listen_port,
        check_file_existence: f.check_file_existence,
        path_rewrites: map_rules(&f.path_rewrites),
        anti_reverse_proxy: map_anti_wizard_opt(&f.anti_reverse_proxy),
    }
}

/// `[Backend]` as the wizard writes it: every key.
pub fn map_backend_wizard(b: &Backend) -> (r: Backend)
    ensures
        r@ == b@,
{
    b.clone()
}

/// The written backend nodes, in order.
fn map_nodes(nodes: &Vec<BackendNode>) -> (r: Vec<EmitBackendNode>)
    ensures
        r@.map_values(|n: EmitBackendNode| n@) == node_views(nodes@).map_values(
            |n: BackendNodeModel| emit_node_spec(n),
        ),
{
    let mut out: Vec<EmitBackendNode> = Vec::new();
    let mut i: usize = 0;
    while i < nodes.len()
        invariant
            i <= nodes.len(),
            out.len() == i,
            forall|j: int| 0 <= j < i ==> (#[trigger] out@[j])@ == emit_node_spec(nodes@[j]@),
        decreases nodes.len() - i,
    {
        let e = map_node(&nodes[i]);
        out.push(e);
        i = i + 1;
    }
    assert(out@.map_values(|n: EmitBackendNode| n@) =~= node_views(nodes@).map_values(
        |n: BackendNodeModel| emit_node_spec(n),
    ));
    out
}

/// The document the wizard writes for `raw`.
pub fn wizard_emit_doc(raw: &RawConfig) -> (r: WizardEmitDoc)
    ensures
        r@ == emit_doc_spec(raw@),
{
    let http2 = match &raw.http2 {
        Some(h) => map_http2(h),
        None => None,
    };
    let backend_nodes = match &raw.backend_nodes {
        Some(ns) => map_nodes(ns),
        None => Vec::new(),
    };
    let frontend = match &raw.frontend {
        Some(f) => Some(map_frontend_wizard(f)),
        None => None,
    };
    let backend = match &raw.backend {
        Some(b) => Some(map_backend_wizard(b)),
        None => None,
    };
    let r = WizardEmitDoc {
        log: raw.log.clone(),
        general: raw.general.clone(),
        emby: raw.emby.clone(),
        user_agent: raw.user_agent.clone(),
        http2,
        frontend,
        backend,
        backend_nodes,
        fallback: raw.fallback.clone(),
    };
    assert(r@.backend_nodes =~= emit_doc_spec(raw@).backend_nodes);
    r
}

} // verus!
