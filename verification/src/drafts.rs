//! Web-studio drafts: the wizard payload that a draft stores, and its
//! conversion to and from a configuration file.
use vstd::prelude::*;

use crate::config::{
    Backend, BackendModel, BackendNode, BackendNodeModel, Emby, FallbackConfig, Frontend,
    FrontendModel, General, Http2, Log, RawConfig, RawConfigModel, StreamMode, UserAgent,
    UserAgentModel, backend_view, frontend_view, node_views,
};
use crate::emit::emit_doc_spec;
use crate::text::{copy_str, join2, strip_prefixes, strip_trailing, trim, trim_end_matches_char,
    trim_start_matches, trim_str};

verus! {

/// The stream mode as the web studio names it.
#[derive(Clone, Copy, Debug, PartialEq, Eq, Structural)]
pub enum WizardStreamMode {
    Frontend,
    Backend,
    Dual,
}

pub open spec fn wizard_mode_of(m: StreamMode) -> WizardStreamMode {
    match m {
        StreamMode::Frontend => WizardStreamMode::Frontend,
        StreamMode::Backend => WizardStreamMode::Backend,
        StreamMode::Dual => WizardStreamMode::Dual,
    }
}

pub open spec fn stream_mode_of(m: WizardStreamMode) -> StreamMode {
    match m {
        WizardStreamMode::Frontend => StreamMode::Frontend,
        WizardStreamMode::Backend => StreamMode::Backend,
        WizardStreamMode::Dual => StreamMode::Dual,
    }
}

impl From<StreamMode> for WizardStreamMode {
    fn from(m: StreamMode) -> (r: Self) {
        match m {
            StreamMode::Frontend => WizardStreamMode::Frontend,
            StreamMode::Backend => WizardStreamMode::Backend,
            StreamMode::Dual => WizardStreamMode::Dual,
        }
    }
}

impl vstd::std_specs::convert::FromSpecImpl<StreamMode> for WizardStreamMode {
    open spec fn obeys_from_spec() -> bool {
        true
    }

    open spec fn from_spec(v: StreamMode) -> Self {
        wizard_mode_of(v)
    }
}

impl From<WizardStreamMode> for StreamMode {
    fn from(m: WizardStreamMode) -> (r: Self) {
        match m {
            WizardStreamMode::Frontend => StreamMode::Frontend,
            WizardStreamMode::Backend => StreamMode::Backend,
            WizardStreamMode::Dual => StreamMode::Dual,
        }
    }
}

impl vstd::std_specs::convert::FromSpecImpl<WizardStreamMode> for StreamMode {
    open spec fn obeys_from_spec() -> bool {
        true
    }

    open spec fn from_spec(v: WizardStreamMode) -> Self {
        stream_mode_of(v)
    }
}

/// The `[General]` keys the wizard asks for (the stream mode is kept apart).
#[derive(Debug, PartialEq)]
pub struct WizardSharedGeneral {
    pub memory_mode: String,
    pub encipher_key: String,
    pub encipher_iv: String,
}

/// The sections every stream mode shares.
#[derive(Debug, PartialEq)]
pub struct WizardSharedPayload {
    pub log: Log,
    pub general: WizardSharedGeneral,
    pub emby: Emby,
    pub user_agent: UserAgent,
    pub fallback: FallbackConfig,
    pub http2: Http2,
}

/// The contents of the shared sections.
pub struct WizardSharedModel {
    pub log: Log,
    pub general: WizardSharedGeneral,
    pub emby: Emby,
    pub user_agent: UserAgentModel,
    pub fallback: FallbackConfig,
    pub http2: Http2,
}

impl View for WizardSharedPayload {
    type V = WizardSharedModel;

    open spec fn view(&self) -> WizardSharedModel {
        WizardSharedModel {
            log: self.log,
            general: self.general,
            emby: self.emby,
            user_agent: self.user_agent@,
            fallback: self.fallback,
            http2: self.http2,
        }
    }
}

/// nginx settings of the frontend site.
#[derive(Debug, PartialEq)]
pub struct WizardFrontendNginxPayload {
    pub server_name: String,
}

/// nginx settings of the backend site.
#[derive(Debug, PartialEq)]
pub struct WizardBackendNginxPayload {
    pub server_name: String,
}

/// nginx settings of both sites.
#[derive(Debug, PartialEq)]
pub struct WizardNginxPayload {
    pub frontend: WizardFrontendNginxPayload,
    pub backend: WizardBackendNginxPayload,
}

/// Where systemd finds the program.
#[derive(Debug, PartialEq)]
pub struct WizardSystemdPayload {
    pub binary_path: String,
    pub working_directory: String,
    pub config_path: String,
}

/// Where pm2 finds the program and writes its logs.
#[derive(Debug, PartialEq)]
pub struct WizardPm2Payload {
    pub binary_path: String,
    pub working_directory: String,
    pub config_path: String,
    pub out_file: String,
    pub error_file: String,
}

/// Deployment settings.
#[derive(Debug, PartialEq)]
pub struct WizardDeploymentPayload {
    pub systemd: WizardSystemdPayload,
    pub pm2: WizardPm2Payload,
}

/// Everything a draft holds.
#[derive(Debug, PartialEq)]
pub struct WizardPayload {
    pub stream_mode: WizardStreamMode,
    pub shared: WizardSharedPayload,
    pub frontend: Option<Frontend>,
    pub backend: Option<Backend>,
    pub backend_nodes: Vec<BackendNode>,
    pub nginx: WizardNginxPayload,
    pub deployment: WizardDeploymentPayload,
}

/// The contents of a draft.
pub struct WizardPayloadModel {
    pub stream_mode: WizardStreamMode,
    pub shared: WizardSharedModel,
    pub frontend: Option<FrontendModel>,
    pub backend: Option<BackendModel>,
    pub backend_nodes: Seq<BackendNodeModel>,
    pub nginx: WizardNginxPayload,
    pub deployment: WizardDeploymentPayload,
}

impl View for WizardPayload {
    type V = WizardPayloadModel;

    open spec fn view(&self) -> WizardPayloadModel {
        WizardPayloadModel {
            stream_mode: self.stream_mode,
            shared: self.shared@,
            frontend: frontend_view(self.frontend),
            backend: backend_view(self.backend),
            backend_nodes: node_views(self.backend_nodes@),
            nginx: self.nginx,
            deployment: self.deployment,
        }
    }
}

/// The configuration a draft describes.
pub open spec fn raw_of_payload(p: WizardPayloadModel) -> RawConfigModel {
    RawConfigModel {
        general: General {
            memory_mode: p.shared.general.memory_mode,
            stream_mode: stream_mode_of(p.stream_mode),
            encipher_key: p.shared.general.encipher_key,
            encipher_iv: p.shared.general.encipher_iv,
        },
        log: p.shared.log,
        emby: p.shared.emby,
        user_agent: p.shared.user_agent,
        http2: Some(p.shared.http2),
        frontend: p.frontend,
        backend: p.backend,
        backend_nodes: Some(p.backend_nodes),
        disk: None,
        open_list: None,
        direct_link: None,
        fallback: p.shared.fallback,
    }
}

/// A host name from a URL or host setting: trimmed, without a leading
/// `http://` or `https://` (each removed as often as it repeats) and without
/// trailing slashes.
pub open spec fn stripped_host(v: Seq<char>) -> Seq<char> {
    strip_trailing(strip_prefixes(strip_prefixes(trim(v), "http://"@), "https://"@), '/')
}

/// `Some(s)` when `s` is not empty.
pub open spec fn nonempty(s: Seq<char>) -> Option<Seq<char>> {
    if s.len() > 0 {
        Some(s)
    } else {
        None
    }
}

/// The frontend site's name taken from its first trusted host.
pub open spec fn frontend_host_name(m: RawConfigModel) -> Option<Seq<char>> {
    match m.frontend {
        Some(f) => if f.anti_reverse_proxy.trusted_hosts.len() > 0 {
            nonempty(stripped_host(f.anti_reverse_proxy.trusted_hosts[0]@))
        } else {
            None
        },
        None => None,
    }
}

/// The backend site's name taken from its public URL.
pub open spec fn backend_host_name(m: RawConfigModel) -> Option<Seq<char>> {
    match m.backend {
        Some(b) => nonempty(stripped_host(b.base_url@)),
        None => None,
    }
}

/// The name the frontend site gets by default.
pub open spec fn frontend_server_name(m: RawConfigModel) -> Seq<char> {
    match frontend_host_name(m) {
        Some(h) => h,
        None => match backend_host_name(m) {
            Some(h) => h,
            None => "stream.example.com"@,
        },
    }
}

/// The name the backend site gets by default.
pub open spec fn backend_server_name(m: RawConfigModel) -> Seq<char> {
    match backend_host_name(m) {
        Some(h) => h,
        None => frontend_server_name(m),
    }
}

/// The directory pm2 runs the program in, by stream mode.
pub open spec fn pm2_directory(m: WizardStreamMode) -> Seq<char> {
    match m {
        WizardStreamMode::Frontend => "/opt/stream-frontend"@,
        WizardStreamMode::Backend => "/opt/stream-backend"@,
        WizardStreamMode::Dual => "/opt/stream"@,
    }
}

/// What `wizard_payload_from_raw` gives for a configuration: every section
/// moved over, a missing `[Http2]` as two empty paths, missing nodes as none,
/// and the default nginx and deployment settings.
pub open spec fn payload_describes(p: WizardPayloadModel, m: RawConfigModel) -> bool {
    &&& p.stream_mode == wizard_mode_of(m.general.stream_mode)
    &&& p.shared.log == m.log
    &&& p.shared.general.memory_mode == m.general.memory_mode
    &&& p.shared.general.encipher_key == m.general.encipher_key
    &&& p.shared.general.encipher_iv == m.general.encipher_iv
    &&& p.shared.emby == m.emby
    &&& p.shared.user_agent == m.user_agent
    &&& p.shared.fallback == m.fallback
    &&& match m.http2 {
        Some(h) => p.shared.http2 == h,
        None => p.shared.http2.ssl_cert_file@.len() == 0 && p.shared.http2.ssl_key_file@.len() == 0,
    }
    &&& p.frontend == m.frontend
    &&& p.backend == m.backend
    &&& p.backend_nodes == match m.backend_nodes {
        Some(ns) => ns,
        None => Seq::empty(),
    }
    &&& p.nginx.frontend.server_name@ == frontend_server_name(m)
    &&& p.nginx.backend.server_name@ == backend_server_name(m)
    &&& deployment_is_default(p.deployment, p.stream_mode)
}

/// The deployment settings a new draft gets.
pub open spec fn deployment_is_default(d: WizardDeploymentPayload, m: WizardStreamMode) -> bool {
    &&& d.systemd.binary_path@ == "/usr/bin/embystream"@
    &&& d.systemd.working_directory@ == "/opt/stream"@
    &&& d.systemd.config_path@ == "/opt/stream/config.toml"@
    &&& d.pm2.binary_path@ == "/usr/bin/embystream"@
    &&& d.pm2.working_directory@ == pm2_directory(m)
    &&& d.pm2.config_path@ == pm2_directory(m) + "/config.toml"@
    &&& d.pm2.out_file@ == pm2_directory(m) + "/logs/pm2.out.log"@
    &&& d.pm2.error_file@ == pm2_directory(m) + "/logs/pm2.err.log"@
}

/// `value` as a host name: see `stripped_host`.
pub fn strip_scheme_host(value: &str) -> (r: String)
    ensures
        r@ == stripped_host(value@),
{
    let t = trim_str(value);
    let a = trim_start_matches(t.as_str(), "http://");
    let b = trim_start_matches(a.as_str(), "https://");
    trim_end_matches_char(b.as_str(), '/')
}

/// The default nginx settings for a configuration.
pub fn default_nginx_payload_from_raw(raw: &RawConfig) -> (r: WizardNginxPayload)
    ensures
        r.frontend.server_name@ == frontend_server_name(raw@),
        r.backend.server_name@ == backend_server_name(raw@),
{
    let from_frontend: Option<String> = match &raw.frontend {
        Some(f) => if f.anti_reverse_proxy.trusted_hosts.len() > 0 {
            let h = strip_scheme_host(f.anti_reverse_proxy.trusted_hosts[0].as_str());
            if h.as_str().is_empty() {
                None
            } else {
                Some(h)
            }
        } else {
            None
        },
        None => None,
    };
    let from_backend: Option<String> = match &raw.backend {
        Some(b) => {
            let h = strip_scheme_host(b.base_url.as_str());
            if h.as_str().is_empty() {
                None
            } else {
                Some(h)
            }
        },
        None => None,
    };
    let frontend_name: String = match from_frontend {
        Some(h) => h,
        None => match &from_backend {
            Some(h) => h.clone(),
            None => copy_str("stream.example.com"),
        },
    };
    let backend_name: String = match from_backend {
        Some(h) => h,
        None => frontend_name.clone(),
    };
    WizardNginxPayload {
        frontend: WizardFrontendNginxPayload { server_name: frontend_name },
        backend: WizardBackendNginxPayload { server_name: backend_name },
    }
}

/// The default systemd and pm2 settings for a stream mode.
pub fn default_deployment_payload(stream_mode: WizardStreamMode) -> (r: WizardDeploymentPayload)
    ensures
        deployment_is_default(r, stream_mode),
{
    let dir: &str = match stream_mode {
        WizardStreamMode::Frontend => "/opt/stream-frontend",
        WizardStreamMode::Backend => "/opt/stream-backend",
        WizardStreamMode::Dual => "/opt/stream",
    };
    proof {
        reveal_strlit("/opt/stream-frontend");
        reveal_strlit("/opt/stream-backend");
        reveal_strlit("/opt/stream");
    }
    assert(dir@ == pm2_directory(stream_mode));
    WizardDeploymentPayload {
        systemd: WizardSystemdPayload {
            binary_path: copy_str("/usr/bin/embystream"),
            working_directory: copy_str("/opt/stream"),
            config_path: copy_str("/opt/stream/config.toml"),
        },
        pm2: WizardPm2Payload {
            binary_path: copy_str("/usr/bin/embystream"),
            working_directory: copy_str(dir),
            config_path: join2(dir, "/config.toml"),
            out_file: join2(dir, "/logs/pm2.out.log"),
            error_file: join2(dir, "/logs/pm2.err.log"),
        },
    }
}

/// The draft that describes a configuration.
pub fn wizard_payload_from_raw(raw: RawConfig) -> (r: WizardPayload)
    ensures
        payload_describes(r@, raw@),
{
    let nginx = default_nginx_payload_from_raw(&raw);
    let mode = WizardStreamMode::from(raw.general.stream_mode);
    let deployment = default_deployment_payload(mode);
    let http2 = match raw.http2 {
        Some(h) => h,
        None => Http2::default(),
    };
    let backend_nodes = match raw.backend_nodes {
        Some(ns) => ns,
        None => Vec::new(),
    };
    let r = WizardPayload {
        stream_mode: mode,
        shared: WizardSharedPayload {
            log: raw.log,
            general: WizardSharedGeneral {
                memory_mode: raw.general.memory_mode,
                encipher_key: raw.general.encipher_key,
                encipher_iv: raw.general.encipher_iv,
            },
            emby: raw.emby,
            user_agent: raw.user_agent,
            fallback: raw.fallback,
            http2,
        },
        frontend: raw.frontend,
        backend: raw.backend,
        backend_nodes,
        nginx,
        deployment,
    };
    assert(r@.backend_nodes == match raw@.backend_nodes {
        Some(ns) => ns,
        None => Seq::<BackendNodeModel>::empty(),
    });
    r
}

/// The configuration a draft describes.
pub fn raw_from_wizard_payload(payload: &WizardPayload) -> (r: RawConfig)
    ensures
        r@ == raw_of_payload(payload@),
{
    RawConfig {
        general: General {
            memory_mode: payload.shared.general.memory_mode.clone(),
            stream_mode: StreamMode::from(payload.stream_mode),
            encipher_key: payload.shared.general.encipher_key.clone(),
            encipher_iv: payload.shared.general.encipher_iv.clone(),
        },
        log: payload.shared.log.clone(),
        emby: payload.shared.emby.clone(),
        user_agent: payload.shared.user_agent.clone(),
        http2: Some(payload.shared.http2.clone()),
        frontend: match &payload.frontend {
            Some(f) => Some(f.clone()),
            None => None,
        },
        backend: match &payload.backend {
            Some(b) => Some(b.clone()),
            None => None,
        },
        backend_nodes: Some(crate::config::copy_nodes(&payload.backend_nodes)),
        disk: None,
        open_list: None,
        direct_link: None,
        fallback: payload.shared.fallback.clone(),
    }
}

/// A new draft starts without backend nodes unless it is frontend-only.
pub fn clear_default_backend_nodes(payload: WizardPayload) -> (r: WizardPayload)
    ensures
        payload.stream_mode != WizardStreamMode::Frontend ==> r@ == (WizardPayloadModel {
            backend_nodes: Seq::empty(),
            ..payload@
        }),
        payload.stream_mode == WizardStreamMode::Frontend ==> r@ == payload@,
{
    let mut payload = payload;
    if payload.stream_mode != WizardStreamMode::Frontend {
        payload.backend_nodes.clear();
        assert(node_views(payload.backend_nodes@) =~= Seq::<BackendNodeModel>::empty());
    }
    payload
}

/// A draft's name: the given one trimmed, or a default by stream mode when
/// it is blank.
pub fn normalize_name(name: String, stream_mode: WizardStreamMode) -> (r: String)
    ensures
        trim(name@).len() > 0 ==> r@ == trim(name@),
        trim(name@).len() == 0 ==> r@ == match stream_mode {
            WizardStreamMode::Frontend => "Frontend setup"@,
            WizardStreamMode::Backend => "Backend setup"@,
            WizardStreamMode::Dual => "Dual setup"@,
        },
{
    let trimmed = trim_str(name.as_str());
    if !trimmed.as_str().is_empty() {
        return trimmed;
    }
    match stream_mode {
        WizardStreamMode::Frontend => copy_str("Frontend setup"),
        WizardStreamMode::Backend => copy_str("Backend setup"),
        WizardStreamMode::Dual => copy_str("Dual setup"),
    }
}

/// The name a metadata update sets: the given one trimmed, or `None` when it
/// is blank (the update is refused).
pub fn metadata_draft_name(name: &str) -> (r: Option<String>)
    ensures
        trim(name@).len() > 0 ==> (r matches Some(s) && s@ == trim(name@)),
        trim(name@).len() == 0 ==> r is None,
{
    let trimmed = trim_str(name);
    if trimmed.as_str().is_empty() {
        None
    } else {
        Some(trimmed)
    }
}

/// A draft turned back into a configuration is written exactly as the
/// configuration it was made from.
pub proof fn lemma_draft_round_trip_preserves_written_config(m: RawConfigModel, p: WizardPayloadModel)
    requires
        payload_describes(p, m),
    ensures
        emit_doc_spec(raw_of_payload(p)) == emit_doc_spec(m),
{
    let back = raw_of_payload(p);
    assert(back.general == m.general);
    assert(emit_doc_spec(back).backend_nodes =~= emit_doc_spec(m).backend_nodes);
}

} // verus!
