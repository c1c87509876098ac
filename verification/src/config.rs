//! Configuration model: the sections of the configuration file and the rules
//! that decide path rewriting and anti-reverse-proxy blocking.
use vstd::prelude::*;

use crate::text::{chars_of, first_piece, first_piece_of, eq_ignore_case, chars_eq_ignore_case, strip_prefixes, strip_trailing, trim, trim_str, trim_start_matches, trim_end_matches_char};

verus! {

/// A copy of a list of strings with the same contents.
pub fn copy_strings(v: &Vec<String>) -> (r: Vec<String>)
    ensures
        r@ == v@,
{
    let r = v.clone();
    assert(r@ =~= v@) by {
        assert forall|i: int| 0 <= i < v.len() implies r@[i] == v@[i] by {
            assert(cloned::<String>(v[i], r[i]));
        }
    }
    r
}

/// One path rewrite rule.
#[derive(Debug, PartialEq)]
pub struct PathRewriteConfig {
    pub enable: bool,
    pub pattern: String,
    pub replacement: String,
}

impl Clone for PathRewriteConfig {
    fn clone(&self) -> (r: Self)
        ensures
            r == *self,
    {
        PathRewriteConfig {
            enable: self.enable,
            pattern: self.pattern.clone(),
            replacement: self.replacement.clone(),
        }
    }
}

impl Default for PathRewriteConfig {
    fn default() -> (r: Self)
        ensures
            !r.enable,
            r.pattern@.len() == 0,
            r.replacement@.len() == 0,
    {
        PathRewriteConfig { enable: false, pattern: String::new(), replacement: String::new() }
    }
}

impl PathRewriteConfig {
    /// Whether `path` should go through this rule: the path is non-empty, the
    /// rule is enabled and both its pattern and replacement are set.
    pub fn is_need_rewrite(&self, path: &str) -> (r: bool)
        ensures
            r == (path@.len() > 0 && self.enable && self.pattern@.len() > 0
                && self.replacement@.len() > 0),
    {
        if path.is_empty() || !self.enable {
            return false;
        }
        !self.pattern.as_str().is_empty() && !self.replacement.as_str().is_empty()
    }
}

/// A copy of a list of rewrite rules.
pub fn copy_rules(v: &Vec<PathRewriteConfig>) -> (r: Vec<PathRewriteConfig>)
    ensures
        r@ == v@,
{
    let r = v.clone();
    assert(r@ =~= v@) by {
        assert forall|i: int| 0 <= i < v.len() implies r@[i] == v@[i] by {
            assert(cloned::<PathRewriteConfig>(v[i], r[i]));
        }
    }
    r
}

/// Which gateways a process runs.
#[derive(Clone, Copy, Debug, PartialEq, Eq, Structural)]
pub enum StreamMode {
    Frontend,
    Backend,
    Dual,
}

/// `[General]`.
#[derive(Debug, PartialEq)]
pub struct General {
    pub memory_mode: String,
    pub stream_mode: StreamMode,
    pub encipher_key: String,
    pub encipher_iv: String,
}

impl Clone for General {
    fn clone(&self) -> (r: Self)
        ensures
            r == *self,
    {
        General {
            memory_mode: self.memory_mode.clone(),
            stream_mode: self.stream_mode,
            encipher_key: self.encipher_key.clone(),
            encipher_iv: self.encipher_iv.clone(),
        }
    }
}

/// `[Log]`.
#[derive(Debug, PartialEq)]
pub struct Log {
    pub level: String,
    pub prefix: String,
    pub root_path: String,
}

impl Clone for Log {
    fn clone(&self) -> (r: Self)
        ensures
            r == *self,
    {
        Log {
            level: self.level.clone(),
            prefix: self.prefix.clone(),
            root_path: self.root_path.clone(),
        }
    }
}

/// `[Emby]`.
#[derive(Debug, PartialEq)]
pub struct Emby {
    pub url: String,
    pub port: String,
    pub token: String,
}

impl Clone for Emby {
    fn clone(&self) -> (r: Self)
        ensures
            r == *self,
    {
        Emby { url: self.url.clone(), port: self.port.clone(), token: self.token.clone() }
    }
}

/// `[UserAgent]`.
#[derive(Debug, PartialEq)]
pub struct UserAgent {
    pub mode: String,
    pub allow_ua: Vec<String>,
    pub deny_ua: Vec<String>,
}

/// The contents of a `[UserAgent]` section.
pub struct UserAgentModel {
    pub mode: String,
    pub allow_ua: Seq<String>,
    pub deny_ua: Seq<String>,
}

impl View for UserAgent {
    type V = UserAgentModel;

    open spec fn view(&self) -> UserAgentModel {
        UserAgentModel { mode: self.mode, allow_ua: self.allow_ua@, deny_ua: self.deny_ua@ }
    }
}

impl Clone for UserAgent {
    fn clone(&self) -> (r: Self)
        ensures
            r@ == self@,
    {
        UserAgent {
            mode: self.mode.clone(),
            allow_ua: copy_strings(&self.allow_ua),
            deny_ua: copy_strings(&self.deny_ua),
        }
    }
}

/// `[Http2]`.
#[derive(Debug, PartialEq)]
pub struct Http2 {
    pub ssl_cert_file: String,
    pub ssl_key_file: String,
}

impl Clone for Http2 {
    fn clone(&self) -> (r: Self)
        ensures
            r == *self,
    {
        Http2 { ssl_cert_file: self.ssl_cert_file.clone(), ssl_key_file: self.ssl_key_file.clone() }
    }
}

impl Default for Http2 {
    fn default() -> (r: Self)
        ensures
            r.ssl_cert_file@.len() == 0,
            r.ssl_key_file@.len() == 0,
    {
        Http2 { ssl_cert_file: String::new(), ssl_key_file: String::new() }
    }
}

/// `[Fallback]`.
#[derive(Debug, PartialEq)]
pub struct FallbackConfig {
    pub video_missing_path: String,
}

impl Clone for FallbackConfig {
    fn clone(&self) -> (r: Self)
        ensures
            r == *self,
    {
        FallbackConfig { video_missing_path: self.video_missing_path.clone() }
    }
}

impl Default for FallbackConfig {
    fn default() -> (r: Self)
        ensures
            r.video_missing_path@.len() == 0,
    {
        FallbackConfig { video_missing_path: String::new() }
    }
}

/// `[Disk]` settings of a backend node.
#[derive(Debug, PartialEq)]
pub struct Disk {
    pub description: String,
}

impl Clone for Disk {
    fn clone(&self) -> (r: Self)
        ensures
            r == *self,
    {
        Disk { description: self.description.clone() }
    }
}

/// `[OpenList]` settings of a backend node.
#[derive(Debug, PartialEq)]
pub struct OpenList {
    pub base_url: String,
    pub port: String,
    pub token: String,
}

impl Clone for OpenList {
    fn clone(&self) -> (r: Self)
        ensures
            r == *self,
    {
        OpenList { base_url: self.base_url.clone(), port: self.port.clone(), token: self.token.clone() }
    }
}

/// `[DirectLink]` settings of a backend node.
#[derive(Debug, PartialEq)]
pub struct DirectLink {
    pub user_agent: String,
}

impl Clone for DirectLink {
    fn clone(&self) -> (r: Self)
        ensures
            r == *self,
    {
        DirectLink { user_agent: self.user_agent.clone() }
    }
}

/// `[GoogleDrive]` settings of a backend node.
#[derive(Debug, PartialEq)]
pub struct GoogleDriveConfig {
    pub node_uuid: String,
    pub client_id: String,
    pub client_secret: String,
    pub drive_id: String,
    pub drive_name: String,
    pub access_token: String,
    pub refresh_token: String,
}

impl Clone for GoogleDriveConfig {
    fn clone(&self) -> (r: Self)
        ensures
            r == *self,
    {
        GoogleDriveConfig {
            node_uuid: self.node_uuid.clone(),
            client_id: self.client_id.clone(),
            client_secret: self.client_secret.clone(),
            drive_id: self.drive_id.clone(),
            drive_name: self.drive_name.clone(),
            access_token: self.access_token.clone(),
            refresh_token: self.refresh_token.clone(),
        }
    }
}

/// `[WebDav]` settings of a backend node.
#[derive(Debug, PartialEq)]
pub struct WebDavConfig {
    pub url_mode: String,
    pub node_uuid: String,
    pub query_param: String,
    pub url_template: String,
    pub username: String,
    pub password: String,
    pub user_agent: String,
}

impl Clone for WebDavConfig {
    fn clone(&self) -> (r: Self)
        ensures
            r == *self,
    {
        WebDavConfig {
            url_mode: self.url_mode.clone(),
            node_uuid: self.node_uuid.clone(),
            query_param: self.query_param.clone(),
            url_template: self.url_template.clone(),
            username: self.username.clone(),
            password: self.password.clone(),
            user_agent: self.user_agent.clone(),
        }
    }
}

/// The character views of a list of strings.
pub open spec fn views(v: Seq<String>) -> Seq<Seq<char>> {
    v.map_values(|s: String| s@)
}

/// The bare host name of a host candidate: without a leading `http://` or
/// `https://` (each stripped wherever it repeats), cut before the first `/`
/// or `:`; none when that leaves nothing.
pub open spec fn valid_host(url: Seq<char>) -> Option<Seq<char>> {
    let cleaned = strip_prefixes(strip_prefixes(url, "http://"@), "https://"@);
    let first = first_piece(cleaned, seq!['/', ':']);
    if first.len() == 0 {
        None
    } else {
        Some(strip_trailing(first, '/'))
    }
}

/// Whether the trusted entry `trusted` names the request host `request`
/// (ASCII case ignored).
pub open spec fn host_matches(trusted: Seq<char>, request: Seq<char>) -> bool {
    match valid_host(trusted) {
        Some(t) => eq_ignore_case(t, request),
        None => false,
    }
}

/// Whether a request for `host` is blocked under the given setting: only when
/// it is enabled, has trusted hosts, the request host parses and no trusted
/// host matches it.
pub open spec fn anti_blocks(enable: bool, trusted: Seq<Seq<char>>, host: Seq<char>) -> bool {
    &&& enable
    &&& trusted.len() > 0
    &&& match valid_host(host) {
        Some(r) => !(exists|i: int| 0 <= i < trusted.len() && host_matches(#[trigger] trusted[i], r)),
        None => false,
    }
}

/// A request whose host matches any trusted host is never blocked.
pub proof fn lemma_trusted_host_never_blocked(
    enable: bool,
    trusted: Seq<Seq<char>>,
    i: int,
    host: Seq<char>,
)
    requires
        0 <= i < trusted.len(),
        valid_host(host) is Some,
        host_matches(trusted[i], valid_host(host)->0),
    ensures
        !anti_blocks(enable, trusted, host),
{
}

/// Blocking depends on the request only through its host name, compared up
/// to ASCII case: the scheme, a port or a path make no difference.
pub proof fn lemma_anti_blocks_by_host_name(
    enable: bool,
    trusted: Seq<Seq<char>>,
    h1: Seq<char>,
    h2: Seq<char>,
)
    requires
        valid_host(h1) is Some <==> valid_host(h2) is Some,
        valid_host(h1) is Some ==> eq_ignore_case(valid_host(h1)->0, valid_host(h2)->0),
    ensures
        anti_blocks(enable, trusted, h1) == anti_blocks(enable, trusted, h2),
{
    if valid_host(h1) is Some {
        let r1 = valid_host(h1)->0;
        let r2 = valid_host(h2)->0;
        assert forall|i: int| 0 <= i < trusted.len() implies host_matches(#[trigger] trusted[i], r1)
            == host_matches(trusted[i], r2) by {
        }
    }
}

/// Normalizes a host candidate into a bare host name for comparison.
pub fn extract_valid_host(url: &str) -> (r: Option<String>)
    ensures
        r matches Some(h) ==> valid_host(url@) == Some(h@),
        r is None ==> valid_host(url@) is None,
{
    let a = trim_start_matches(url, "http://");
    let cleaned = trim_start_matches(a.as_str(), "https://");
    let seps = vec!['/', ':'];
    assert(seps@ =~= seq!['/', ':']);
    let first = first_piece_of(cleaned.as_str(), &seps);
    if first.as_str().is_empty() {
        None
    } else {
        Some(trim_end_matches_char(first.as_str(), '/'))
    }
}

/// Trusted hosts allowed to reach the proxied service.
#[derive(Debug, PartialEq)]
pub struct AntiReverseProxyConfig {
    pub enable: bool,
    pub trusted_hosts: Vec<String>,
}

/// The contents of an anti-reverse-proxy setting.
pub struct AntiReverseProxyModel {
    pub enable: bool,
    pub trusted_hosts: Seq<String>,
}

impl View for AntiReverseProxyConfig {
    type V = AntiReverseProxyModel;

    open spec fn view(&self) -> AntiReverseProxyModel {
        AntiReverseProxyModel { enable: self.enable, trusted_hosts: self.trusted_hosts@ }
    }
}

impl Default for AntiReverseProxyConfig {
    fn default() -> (r: Self)
        ensures
            !r.enable,
            r.trusted_hosts@.len() == 0,
    {
        AntiReverseProxyConfig { enable: false, trusted_hosts: Vec::new() }
    }
}

impl Clone for AntiReverseProxyConfig {
    fn clone(&self) -> (r: Self)
        ensures
            r@ == self@,
    {
        AntiReverseProxyConfig { enable: self.enable, trusted_hosts: copy_strings(&self.trusted_hosts) }
    }
}

impl AntiReverseProxyConfig {
    /// Whether a request whose host is `host` must be blocked because no
    /// trusted host matches it. A disabled setting, an empty trusted list or
    /// a host that does not parse never block.
    pub fn is_need_anti(&self, host: &str) -> (r: bool)
        ensures
            r == anti_blocks(self.enable, views(self.trusted_hosts@), host@),
    {
        if !self.enable || self.trusted_hosts.len() == 0 {
            return false;
        }
        let request_host = match extract_valid_host(host) {
            Some(h) => h,
            None => return false,
        };
        let rc = chars_of(request_host.as_str());
        let ghost tv = views(self.trusted_hosts@);
        let mut i: usize = 0;
        while i < self.trusted_hosts.len()
            invariant
                i <= self.trusted_hosts.len(),
                tv == views(self.trusted_hosts@),
                valid_host(host@) == Some(rc@),
                forall|k: int| 0 <= k < i ==> !host_matches(#[trigger] tv[k], rc@),
            decreases self.trusted_hosts.len() - i,
        {
            let matched = match extract_valid_host(self.trusted_hosts[i].as_str()) {
                Some(t) => chars_eq_ignore_case(&chars_of(t.as_str()), &rc),
                None => false,
            };
            assert(tv[i as int] == self.trusted_hosts@[i as int]@);
            if matched {
                assert(host_matches(tv[i as int], rc@));
                return false;
            }
            i = i + 1;
        }
        assert(!(exists|k: int| 0 <= k < tv.len() && host_matches(#[trigger] tv[k], rc@)));
        true
    }
}

/// The trusted host list written as a single string: the trimmed string, or
/// nothing when it is blank.
pub fn trusted_hosts_from_str(value: &str) -> (r: Vec<String>)
    ensures
        trim(value@).len() == 0 ==> r@.len() == 0,
        trim(value@).len() > 0 ==> views(r@) == seq![trim(value@)],
{
    let t = trim_str(value);
    if t.as_str().is_empty() {
        Vec::new()
    } else {
        let mut v = Vec::new();
        v.push(t);
        assert(views(v@) =~= seq![trim(value@)]);
        v
    }
}

/// The trimmed, non-blank entries of `items`, in order.
pub open spec fn trimmed_nonblank(items: Seq<Seq<char>>) -> Seq<Seq<char>>
    decreases items.len(),
{
    if items.len() == 0 {
        Seq::empty()
    } else {
        let rest = trimmed_nonblank(items.drop_last());
        if trim(items.last()).len() > 0 {
            rest.push(trim(items.last()))
        } else {
            rest
        }
    }
}

/// Every entry kept is non-blank and already trimmed.
pub proof fn lemma_trimmed_nonblank_entries(items: Seq<Seq<char>>)
    ensures
        forall|k: int| 0 <= k < trimmed_nonblank(items).len() ==> {
            let e = #[trigger] trimmed_nonblank(items)[k];
            e.len() > 0 && trim(e) == e
        },
    decreases items.len(),
{
    if items.len() > 0 {
        let rest = trimmed_nonblank(items.drop_last());
        lemma_trimmed_nonblank_entries(items.drop_last());
        crate::text::lemma_trim_idempotent(items.last());
        let all = trimmed_nonblank(items);
        assert forall|k: int| 0 <= k < all.len() implies ({
            let e = #[trigger] all[k];
            e.len() > 0 && trim(e) == e
        }) by {
            if k < rest.len() {
                assert(all[k] == rest[k]);
            }
        }
    }
}

/// Reading back a trusted host list that reading produced changes nothing.
pub proof fn lemma_trimmed_nonblank_reread(items: Seq<Seq<char>>)
    ensures
        trimmed_nonblank(trimmed_nonblank(items)) == trimmed_nonblank(items),
    decreases items.len(),
{
    if items.len() > 0 {
        lemma_trimmed_nonblank_reread(items.drop_last());
        let rest = trimmed_nonblank(items.drop_last());
        if trim(items.last()).len() > 0 {
            let t = trim(items.last());
            crate::text::lemma_trim_idempotent(items.last());
            assert(rest.push(t).drop_last() =~= rest);
            assert(rest.push(t).last() == t);
        }
    }
}

/// The trusted host list written as a list: each entry trimmed, blank
/// entries dropped.
pub fn trusted_hosts_from_list(items: &Vec<String>) -> (r: Vec<String>)
    ensures
        views(r@) == trimmed_nonblank(views(items@)),
{
    let mut r: Vec<String> = Vec::new();
    let mut i: usize = 0;
    while i < items.len()
        invariant
            i <= items.len(),
            views(r@) == trimmed_nonblank(views(items@).take(i as int)),
        decreases items.len() - i,
    {
        let t = trim_str(items[i].as_str());
        assert(views(items@).take(i + 1).drop_last() =~= views(items@).take(i as int));
        assert(views(items@).take(i + 1).last() == items@[i as int]@);
        if !t.as_str().is_empty() {
            let ghost old_r = r@;
            r.push(t);
            assert(views(r@) =~= views(old_r).push(t@));
        }
        i = i + 1;
    }
    assert(views(items@).take(items.len() as int) =~= views(items@));
    r
}


/// `[Frontend]`.
#[derive(Debug, PartialEq)]
pub struct Frontend {
    pub listen_port: u16,
    pub check_file_existence: bool,
    pub path_rewrites: Vec<PathRewriteConfig>,
    pub anti_reverse_proxy: AntiReverseProxyConfig,
    /// Client patterns exempted from the `deviceId` check.
    pub device_id_exempt_clients: Vec<String>,
}

/// The contents of a `[Frontend]` section.
pub struct FrontendModel {
    pub listen_port: u16,
    pub check_file_existence: bool,
    pub path_rewrites: Seq<PathRewriteConfig>,
    pub anti_reverse_proxy: AntiReverseProxyModel,
    pub device_id_exempt_clients: Seq<String>,
}

impl View for Frontend {
    type V = FrontendModel;

    open spec fn view(&self) -> FrontendModel {
        FrontendModel {
            listen_port: self.listen_port,
            check_file_existence: self.check_file_existence,
            path_rewrites: self.path_rewrites@,
            anti_reverse_proxy: self.anti_reverse_proxy@,
            device_id_exempt_clients: self.device_id_exempt_clients@,
        }
    }
}

impl Clone for Frontend {
    fn clone(&self) -> (r: Self)
        ensures
            r@ == self@,
    {
        Frontend {
            listen_port: self.listen_port,
            check_file_existence: self.check_file_existence,
            path_rewrites: copy_rules(&self.path_rewrites),
            anti_reverse_proxy: self.anti_reverse_proxy.clone(),
            device_id_exempt_clients: copy_strings(&self.device_id_exempt_clients),
        }
    }
}

/// The value `check_file_existence` takes when the file leaves it out.
pub fn default_check_file_existence() -> (r: bool)
    ensures
        r,
{
    true
}

/// `[Backend]`.
#[derive(Debug, PartialEq)]
pub struct Backend {
    pub listen_port: u16,
    pub base_url: String,
    pub port: String,
    pub path: String,
    pub check_file_existence: bool,
    pub problematic_clients: Vec<String>,
}

/// The contents of a `[Backend]` section.
pub struct BackendModel {
    pub listen_port: u16,
    pub base_url: String,
    pub port: String,
    pub path: String,
    pub check_file_existence: bool,
    pub problematic_clients: Seq<String>,
}

impl View for Backend {
    type V = BackendModel;

    open spec fn view(&self) -> BackendModel {
        BackendModel {
            listen_port: self.listen_port,
            base_url: self.base_url,
            port: self.port,
            path: self.path,
            check_file_existence: self.check_file_existence,
            problematic_clients: self.problematic_clients@,
        }
    }
}

impl Clone for Backend {
    fn clone(&self) -> (r: Self)
        ensures
            r@ == self@,
    {
        Backend {
            listen_port: self.listen_port,
            base_url: self.base_url.clone(),
            port: self.port.clone(),
            path: self.path.clone(),
            check_file_existence: self.check_file_existence,
            problematic_clients: copy_strings(&self.problematic_clients),
        }
    }
}

/// One `[[BackendNode]]`.
#[derive(Debug, PartialEq)]
pub struct BackendNode {
    pub name: String,
    pub backend_type: String,
    pub pattern: String,
    pub base_url: String,
    pub port: String,
    pub path: String,
    pub priority: i32,
    pub proxy_mode: String,
    pub client_speed_limit_kbs: u64,
    pub client_burst_speed_kbs: u64,
    pub path_rewrites: Vec<PathRewriteConfig>,
    pub anti_reverse_proxy: AntiReverseProxyConfig,
    pub uuid: String,
    pub disk: Option<Disk>,
    pub open_list: Option<OpenList>,
    pub direct_link: Option<DirectLink>,
    pub google_drive: Option<GoogleDriveConfig>,
    pub webdav: Option<WebDavConfig>,
}

/// The contents of a `[[BackendNode]]`.
pub struct BackendNodeModel {
    pub name: String,
    pub backend_type: String,
    pub pattern: String,
    pub base_url: String,
    pub port: String,
    pub path: String,
    pub priority: i32,
    pub proxy_mode: String,
    pub client_speed_limit_kbs: u64,
    pub client_burst_speed_kbs: u64,
    pub path_rewrites: Seq<PathRewriteConfig>,
    pub anti_reverse_proxy: AntiReverseProxyModel,
    pub uuid: String,
    pub disk: Option<Disk>,
    pub open_list: Option<OpenList>,
    pub direct_link: Option<DirectLink>,
    pub google_drive: Option<GoogleDriveConfig>,
    pub webdav: Option<WebDavConfig>,
}

impl View for BackendNode {
    type V = BackendNodeModel;

    open spec fn view(&self) -> BackendNodeModel {
        BackendNodeModel {
            name: self.name,
            backend_type: self.backend_type,
            pattern: self.pattern,
            base_url: self.base_url,
            port: self.port,
            path: self.path,
            priority: self.priority,
            proxy_mode: self.proxy_mode,
            client_speed_limit_kbs: self.client_speed_limit_kbs,
            client_burst_speed_kbs: self.client_burst_speed_kbs,
            path_rewrites: self.path_rewrites@,
            anti_reverse_proxy: self.anti_reverse_proxy@,
            uuid: self.uuid,
            disk: self.disk,
            open_list: self.open_list,
            direct_link: self.direct_link,
            google_drive: self.google_drive,
            webdav: self.webdav,
        }
    }
}

/// A copy of an optional section.
pub fn copy_opt<T: Clone>(o: &Option<T>) -> (r: Option<T>)
    ensures
        r matches Some(x) ==> o is Some && cloned(o->0, x),
        r is None ==> o is None,
{
    match o {
        Some(x) => Some(x.clone()),
        None => None,
    }
}

impl Clone for BackendNode {
    fn clone(&self) -> (r: Self)
        ensures
            r@ == self@,
    {
        let disk = copy_opt(&self.disk);
        let open_list = copy_opt(&self.open_list);
        let direct_link = copy_opt(&self.direct_link);
        let google_drive = copy_opt(&self.google_drive);
        let webdav = copy_opt(&self.webdav);
        BackendNode {
            name: self.name.clone(),
            backend_type: self.backend_type.clone(),
            pattern: self.pattern.clone(),
            base_url: self.base_url.clone(),
            port: self.port.clone(),
            path: self.path.clone(),
            priority: self.priority,
            proxy_mode: self.proxy_mode.clone(),
            client_speed_limit_kbs: self.client_speed_limit_kbs,
            client_burst_speed_kbs: self.client_burst_speed_kbs,
            path_rewrites: copy_rules(&self.path_rewrites),
            anti_reverse_proxy: self.anti_reverse_proxy.clone(),
            uuid: self.uuid.clone(),
            disk,
            open_list,
            direct_link,
            google_drive,
            webdav,
        }
    }
}

/// The contents of a list of backend nodes.
pub open spec fn node_views(v: Seq<BackendNode>) -> Seq<BackendNodeModel> {
    v.map_values(|n: BackendNode| n@)
}

/// A copy of a list of backend nodes.
pub fn copy_nodes(v: &Vec<BackendNode>) -> (r: Vec<BackendNode>)
    ensures
        node_views(r@) == node_views(v@),
{
    let r = v.clone();
    assert(node_views(r@) =~= node_views(v@)) by {
        assert forall|i: int| 0 <= i < v.len() implies r@[i]@ == v@[i]@ by {
            assert(cloned::<BackendNode>(v[i], r[i]));
        }
    }
    r
}

/// The whole configuration file.
#[derive(Debug, PartialEq)]
pub struct RawConfig {
    pub general: General,
    pub log: Log,
    pub emby: Emby,
    pub user_agent: UserAgent,
    pub http2: Option<Http2>,
    pub frontend: Option<Frontend>,
    pub backend: Option<Backend>,
    pub backend_nodes: Option<Vec<BackendNode>>,
    pub disk: Option<Disk>,
    pub open_list: Option<OpenList>,
    pub direct_link: Option<DirectLink>,
    pub fallback: FallbackConfig,
}

/// The contents of a configuration file.
pub struct RawConfigModel {
    pub general: General,
    pub log: Log,
    pub emby: Emby,
    pub user_agent: UserAgentModel,
    pub http2: Option<Http2>,
    pub frontend: Option<FrontendModel>,
    pub backend: Option<BackendModel>,
    pub backend_nodes: Option<Seq<BackendNodeModel>>,
    pub disk: Option<Disk>,
    pub open_list: Option<OpenList>,
    pub direct_link: Option<DirectLink>,
    pub fallback: FallbackConfig,
}

/// The contents of an optional `[Frontend]`.
pub open spec fn frontend_view(f: Option<Frontend>) -> Option<FrontendModel> {
    match f {
        Some(x) => Some(x@),
        None => None,
    }
}

/// The contents of an optional `[Backend]`.
pub open spec fn backend_view(b: Option<Backend>) -> Option<BackendModel> {
    match b {
        Some(x) => Some(x@),
        None => None,
    }
}

/// The contents of an optional node list.
pub open spec fn nodes_view(n: Option<Vec<BackendNode>>) -> Option<Seq<BackendNodeModel>> {
    match n {
        Some(v) => Some(node_views(v@)),
        None => None,
    }
}

impl View for RawConfig {
    type V = RawConfigModel;

    open spec fn view(&self) -> RawConfigModel {
        RawConfigModel {
            general: self.general,
            log: self.log,
            emby: self.emby,
            user_agent: self.user_agent@,
            http2: self.http2,
            frontend: frontend_view(self.frontend),
            backend: backend_view(self.backend),
            backend_nodes: nodes_view(self.backend_nodes),
            disk: self.disk,
            open_list: self.open_list,
            direct_link: self.direct_link,
            fallback: self.fallback,
        }
    }
}

} // verus!
