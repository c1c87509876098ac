//! The decisions of the interactive configuration wizard: how typed answers
//! become configuration values, which choices a menu offers, and how a new
//! configuration starts out. Asking and printing is left to the caller.
use vstd::prelude::*;
use rand::Rng;

use crate::config::{
    AntiReverseProxyConfig, Backend, BackendNode, DirectLink, Disk, Emby, FallbackConfig,
    Frontend, General, GoogleDriveConfig, Http2, Log, OpenList, PathRewriteConfig, RawConfig,
    StreamMode, UserAgent, WebDavConfig, trimmed_nonblank, trusted_hosts_from_list, views,
};
use crate::decimal::{parse_i32, parse_i32_spec, parse_u16, parse_u64, parse_unsigned};
use crate::text::{chars_of, contains, contains_text, copy_str, eq_ignore_ascii_case,
    eq_ignore_case, join2, split_by, split_on, trim, trim_str};

verus! {

/// The comma-separated entries of `s`, each trimmed, blank ones dropped.
pub fn split_csv(s: &str) -> (r: Vec<String>)
    ensures
        views(r@) == trimmed_nonblank(split_on(s@, seq![','])),
{
    let seps = vec![','];
    assert(seps@ =~= seq![',']);
    let pieces = split_by(s, &seps);
    assert(views(pieces@) =~= split_on(s@, seq![',']));
    trusted_hosts_from_list(&pieces)
}

/// The characters that separate trusted hosts typed on one line.
pub open spec fn host_separators() -> Seq<char> {
    seq![',', ' ', '\n', '\t']
}

/// Trusted hosts typed on one line: separated by commas, spaces, newlines or
/// tabs, each trimmed, blank ones dropped.
pub fn trusted_hosts_input(s: &str) -> (r: Vec<String>)
    ensures
        views(r@) == trimmed_nonblank(split_on(s@, host_separators())),
{
    let seps = vec![',', ' ', '\n', '\t'];
    assert(seps@ =~= host_separators());
    let pieces = split_by(s, &seps);
    assert(views(pieces@) =~= split_on(s@, host_separators()));
    trusted_hosts_from_list(&pieces)
}

/// The Emby URL a blank answer stands for.
pub open spec fn local_emby_url() -> Seq<char> {
    "http://127.0.0.1"@
}

/// The Emby base URL for an answer: the local default when it is blank, the
/// trimmed answer when it names a scheme, else the trimmed answer after
/// `http://`.
pub open spec fn emby_url_for(answer: Seq<char>) -> Seq<char> {
    let t = trim(answer);
    if t.len() == 0 {
        local_emby_url()
    } else if contains_text(t, "://"@) {
        t
    } else {
        "http://"@ + t
    }
}

/// The Emby base URL for an answer: see `emby_url_for`.
pub fn normalize_emby_url(raw_input: &str) -> (r: String)
    ensures
        r@ == emby_url_for(raw_input@),
{
    let t = trim_str(raw_input);
    if t.as_str().is_empty() {
        return copy_str("http://127.0.0.1");
    }
    if contains(t.as_str(), "://") {
        t
    } else {
        join2("http://", t.as_str())
    }
}

/// Normalizing an Emby URL twice gives what normalizing it once gave.
pub proof fn lemma_emby_url_idempotent(answer: Seq<char>)
    ensures
        emby_url_for(emby_url_for(answer)) == emby_url_for(answer),
{
    reveal_strlit("http://127.0.0.1");
    reveal_strlit("://");
    reveal_strlit("http://");
    let t = trim(answer);
    crate::text::lemma_trim_shape(answer);
    let r = emby_url_for(answer);
    if t.len() == 0 {
        assert(r[0] == 'h');
        assert(r.last() == '1');
        crate::text::lemma_trim_of_trimmed(r);
        assert(crate::text::occurs_at(r, "://"@, 4)) by {
            assert(r.subrange(4, 7) =~= "://"@);
        }
    } else if contains_text(t, "://"@) {
        crate::text::lemma_trim_idempotent(answer);
    } else {
        assert(r[0] == 'h');
        assert(r.last() == t.last());
        crate::text::lemma_trim_of_trimmed(r);
        assert(crate::text::occurs_at(r, "://"@, 4)) by {
            assert(r.subrange(4, 7) =~= "://"@);
        }
    }
}

/// The stream mode of a menu position: backend, dual, or else frontend.
pub fn stream_mode_for_index(i: usize) -> (r: StreamMode)
    ensures
        i == 1 ==> r == StreamMode::Backend,
        i == 2 ==> r == StreamMode::Dual,
        i != 1 && i != 2 ==> r == StreamMode::Frontend,
{
    if i == 1 {
        StreamMode::Backend
    } else if i == 2 {
        StreamMode::Dual
    } else {
        StreamMode::Frontend
    }
}

/// A new configuration before any question is answered.
pub fn build_new_raw_skeleton(mode: StreamMode) -> (r: RawConfig)
    ensures
        r.general.memory_mode@ == "middle"@,
        r.general.stream_mode == mode,
        r.general.encipher_key@.len() == 0,
        r.general.encipher_iv@.len() == 0,
        r.log.level@ == "info"@,
        r.log.prefix@.len() == 0,
        r.log.root_path@ == "./logs"@,
        r.emby.url@ == local_emby_url(),
        r.emby.port@ == "8096"@,
        r.emby.token@.len() == 0,
        r.user_agent.mode@ == "allow"@,
        r.user_agent.allow_ua@.len() == 0,
        r.user_agent.deny_ua@.len() == 0,
        r.http2 is None,
        r.frontend is None,
        r.backend is None,
        r.backend_nodes is None,
        r.disk is None,
        r.open_list is None,
        r.direct_link is None,
        r.fallback.video_missing_path@.len() == 0,
{
    RawConfig {
        general: General {
            memory_mode: copy_str("middle"),
            stream_mode: mode,
            encipher_key: String::new(),
            encipher_iv: String::new(),
        },
        log: Log { level: copy_str("info"), prefix: String::new(), root_path: copy_str("./logs") },
        emby: Emby { url: copy_str("http://127.0.0.1"), port: copy_str("8096"), token: String::new() },
        user_agent: UserAgent { mode: copy_str("allow"), allow_ua: Vec::new(), deny_ua: Vec::new() },
        http2: None,
        frontend: None,
        backend: None,
        backend_nodes: None,
        disk: None,
        open_list: None,
        direct_link: None,
        fallback: FallbackConfig::default(),
    }
}

/// `rand::thread_rng().gen_range(0..upper)`. The value is drawn at random:
/// all that holds of every outcome is that it lies below `upper` (the range
/// is not empty, so the call does not panic).
#[verifier::external_body]
fn random_below(upper: usize) -> (r: usize)
    requires
        upper > 0,
    ensures
        r < upper,
{
    rand::thread_rng().gen_range(0..upper)
}

/// The characters a generated key is made of.
pub open spec fn alnum_chars() -> Seq<char> {
    "abcdefghijklmnopqrstuvwxyzABCDEFGHIJKLMNOPQRSTUVWXYZ0123456789"@
}

/// `len` random ASCII letters and digits.
pub fn random_alnum(len: usize) -> (r: String)
    ensures
        r@.len() == len,
        forall|i: int| 0 <= i < len ==> alnum_chars().contains(#[trigger] r@[i]),
{
    let chars = chars_of("abcdefghijklmnopqrstuvwxyzABCDEFGHIJKLMNOPQRSTUVWXYZ0123456789");
    proof {
        reveal_strlit("abcdefghijklmnopqrstuvwxyzABCDEFGHIJKLMNOPQRSTUVWXYZ0123456789");
    }
    assert(chars@.len() == 62);
    let mut r = String::new();
    let mut k: usize = 0;
    while k < len
        invariant
            k <= len,
            chars@ == alnum_chars(),
            chars@.len() == 62,
            r@.len() == k,
            forall|i: int| 0 <= i < k ==> alnum_chars().contains(#[trigger] r@[i]),
        decreases len - k,
    {
        let idx = random_below(chars.len());
        let c = chars[idx];
        assert(alnum_chars()[idx as int] == c);
        let ghost before = r@;
        crate::text::push_char(&mut r, c);
        assert forall|i: int| 0 <= i < k + 1 implies alnum_chars().contains(#[trigger] r@[i]) by {
            if i < k {
                assert(r@[i] == before[i]);
            } else {
                assert(r@[i] == c);
            }
        }
        k = k + 1;
    }
    r
}

/// An encryption key or IV answer: a blank answer gets 16 random letters and
/// digits; any other answer is kept trimmed.
pub fn encipher_answer(answer: &str) -> (r: String)
    ensures
        trim(answer@).len() == 0 ==> r@.len() == 16 && forall|i: int| 0 <= i < 16 ==> alnum_chars().contains(#[trigger] r@[i]),
        trim(answer@).len() > 0 ==> r@ == trim(answer@),
{
    let t = trim_str(answer);
    if t.as_str().is_empty() {
        random_alnum(16)
    } else {
        t
    }
}

/// A text answer: a blank answer takes the default when there is one, the
/// empty string when blank is allowed, and otherwise must be asked again
/// (`None`); any other answer is trimmed.
pub fn text_answer(answer: &str, default: Option<String>, allow_empty: bool) -> (r: Option<String>)
    ensures
        trim(answer@).len() > 0 ==> (r matches Some(s) && s@ == trim(answer@)),
        trim(answer@).len() == 0 ==> match default {
            Some(d) => r == Some(d),
            None => if allow_empty {
                r matches Some(s) && s@.len() == 0
            } else {
                r is None
            },
        },
{
    let t = trim_str(answer);
    if t.as_str().is_empty() {
        match default {
            Some(d) => Some(d),
            None => if allow_empty {
                Some(String::new())
            } else {
                None
            },
        }
    } else {
        Some(t)
    }
}

/// A port answer: blank takes the default; otherwise the trimmed answer is
/// read as a `u16`, and `None` (ask again) when it is not one.
pub fn u16_answer(answer: &str, default: u16) -> (r: Option<u16>)
    ensures
        trim(answer@).len() == 0 ==> r == Some(default),
        trim(answer@).len() > 0 ==> match r {
            Some(v) => parse_unsigned(trim(answer@), 0xffff) == Some(v as int),
            None => parse_unsigned(trim(answer@), 0xffff) is None,
        },
{
    let t = trim_str(answer);
    if t.as_str().is_empty() {
        Some(default)
    } else {
        parse_u16(t.as_str())
    }
}

/// A signed answer (a node's priority): blank takes the default; otherwise
/// the trimmed answer read as an `i32`, or `None` (ask again).
pub fn i32_answer(answer: &str, default: i32) -> (r: Option<i32>)
    ensures
        trim(answer@).len() == 0 ==> r == Some(default),
        trim(answer@).len() > 0 ==> match r {
            Some(v) => parse_i32_spec(trim(answer@)) == Some(v as int),
            None => parse_i32_spec(trim(answer@)) is None,
        },
{
    let t = trim_str(answer);
    if t.as_str().is_empty() {
        Some(default)
    } else {
        parse_i32(t.as_str())
    }
}

/// A non-negative answer (a speed limit): blank takes the default; otherwise
/// the trimmed answer read as a `u64`, or `None` (ask again).
pub fn u64_answer(answer: &str, default: u64) -> (r: Option<u64>)
    ensures
        trim(answer@).len() == 0 ==> r == Some(default),
        trim(answer@).len() > 0 ==> match r {
            Some(v) => parse_unsigned(trim(answer@), 0xffff_ffff_ffff_ffff) == Some(v as int),
            None => parse_unsigned(trim(answer@), 0xffff_ffff_ffff_ffff) is None,
        },
{
    let t = trim_str(answer);
    if t.as_str().is_empty() {
        Some(default)
    } else {
        parse_u64(t.as_str())
    }
}

/// The memory modes offered, in menu order.
pub open spec fn memory_mode_name(i: int) -> Seq<char> {
    if i == 0 {
        "low"@
    } else if i == 1 {
        "middle"@
    } else {
        "high"@
    }
}

/// The menu position of the current memory mode, when it is one of the
/// offered ones exactly; otherwise the mode is asked as free text.
pub fn memory_mode_index(current: &str) -> (r: Option<usize>)
    ensures
        match r {
            Some(i) => i < 3 && current@ == memory_mode_name(i as int) && forall|j: int|
                0 <= j < i ==> current@ != #[trigger] memory_mode_name(j),
            None => forall|j: int| 0 <= j < 3 ==> current@ != #[trigger] memory_mode_name(j),
        },
{
    proof {
        reveal_strlit("low");
        reveal_strlit("middle");
        reveal_strlit("high");
    }
    if crate::playback_service::str_eq(current, "low") {
        Some(0)
    } else if crate::playback_service::str_eq(current, "middle") {
        Some(1)
    } else if crate::playback_service::str_eq(current, "high") {
        Some(2)
    } else {
        assert forall|j: int| 0 <= j < 3 implies current@ != #[trigger] memory_mode_name(j) by {
            if j == 0 {
            } else if j == 1 {
            } else {
            }
        }
        None
    }
}

/// The memory mode at a menu position.
pub fn memory_mode_value(i: usize) -> (r: String)
    requires
        i < 3,
    ensures
        r@ == memory_mode_name(i as int),
{
    if i == 0 {
        copy_str("low")
    } else if i == 1 {
        copy_str("middle")
    } else {
        copy_str("high")
    }
}

/// The user-agent modes offered, in menu order.
pub open spec fn ua_mode_name(i: int) -> Seq<char> {
    if i == 0 {
        "allow"@
    } else {
        "deny"@
    }
}

/// The menu position preselected for the current user-agent mode: the first
/// offered mode equal to the trimmed current one up to ASCII case, else the
/// first.
pub fn ua_mode_default_index(current: &str) -> (r: usize)
    ensures
        r < 2,
        r == 0 <== eq_ignore_case(ua_mode_name(0), trim(current@)),
        r == 1 <== !eq_ignore_case(ua_mode_name(0), trim(current@)) && eq_ignore_case(
            ua_mode_name(1),
            trim(current@),
        ),
        r == 0 <== !eq_ignore_case(ua_mode_name(0), trim(current@)) && !eq_ignore_case(
            ua_mode_name(1),
            trim(current@),
        ),
{
    let t = trim_str(current);
    proof {
        reveal_strlit("allow");
        reveal_strlit("deny");
    }
    if eq_ignore_ascii_case("allow", t.as_str()) {
        0
    } else if eq_ignore_ascii_case("deny", t.as_str()) {
        1
    } else {
        0
    }
}

/// The user-agent mode at a menu position.
pub fn ua_mode_value(i: usize) -> (r: String)
    requires
        i < 2,
    ensures
        r@ == ua_mode_name(i as int),
{
    if i == 0 {
        copy_str("allow")
    } else {
        copy_str("deny")
    }
}

/// `[Http2]` from the two path answers: present when either path is given.
pub fn http2_from_answers(cert: String, key: String) -> (r: Option<Http2>)
    ensures
        (cert@.len() > 0 || key@.len() > 0) ==> r == Some(Http2 { ssl_cert_file: cert, ssl_key_file: key }),
        (cert@.len() == 0 && key@.len() == 0) ==> r is None,
{
    if !cert.as_str().is_empty() || !key.as_str().is_empty() {
        Some(Http2 { ssl_cert_file: cert, ssl_key_file: key })
    } else {
        None
    }
}

/// The answers to the questions on the sections every stream mode shares,
/// each already read (a blank answer has taken its default).
#[derive(Debug, PartialEq)]
pub struct SharedAnswers {
    pub log_level: String,
    pub log_root_path: String,
    pub log_prefix: String,
    pub memory_mode: String,
    /// The key as typed; blank asks for a generated one.
    pub encipher_key: String,
    /// The IV as typed; blank asks for a generated one.
    pub encipher_iv: String,
    /// The Emby URL as typed, before normalizing.
    pub emby_url: String,
    pub emby_port: String,
    pub emby_token: String,
    pub ua_mode: String,
    pub allow_ua: Vec<String>,
    pub deny_ua: Vec<String>,
    pub ssl_cert_file: String,
    pub ssl_key_file: String,
    pub video_missing_path: String,
}

/// Fills the shared sections from their answers: each answer goes to its
/// key; the key and IV are trimmed or generated; the Emby URL is normalized;
/// `[Http2]` is set when either path is given and left as it was otherwise;
/// the stream mode, the gateway sections and the nodes do not change.
pub fn apply_shared_answers(raw: &mut RawConfig, a: SharedAnswers)
    ensures
        final(raw).log.level == a.log_level,
        final(raw).log.root_path == a.log_root_path,
        final(raw).log.prefix == a.log_prefix,
        final(raw).general.memory_mode == a.memory_mode,
        final(raw).general.stream_mode == old(raw).general.stream_mode,
        trim(a.encipher_key@).len() > 0 ==> final(raw).general.encipher_key@ == trim(a.encipher_key@),
        trim(a.encipher_key@).len() == 0 ==> final(raw).general.encipher_key@.len() == 16 && forall|i: int|
            0 <= i < 16 ==> alnum_chars().contains(#[trigger] final(raw).general.encipher_key@[i]),
        trim(a.encipher_iv@).len() > 0 ==> final(raw).general.encipher_iv@ == trim(a.encipher_iv@),
        trim(a.encipher_iv@).len() == 0 ==> final(raw).general.encipher_iv@.len() == 16 && forall|i: int|
            0 <= i < 16 ==> alnum_chars().contains(#[trigger] final(raw).general.encipher_iv@[i]),
        final(raw).emby.url@ == emby_url_for(a.emby_url@),
        final(raw).emby.port == a.emby_port,
        final(raw).emby.token == a.emby_token,
        final(raw).user_agent.mode == a.ua_mode,
        final(raw).user_agent.allow_ua == a.allow_ua,
        final(raw).user_agent.deny_ua == a.deny_ua,
        (a.ssl_cert_file@.len() > 0 || a.ssl_key_file@.len() > 0) ==> final(raw).http2 == Some(
            Http2 { ssl_cert_file: a.ssl_cert_file, ssl_key_file: a.ssl_key_file },
        ),
        (a.ssl_cert_file@.len() == 0 && a.ssl_key_file@.len() == 0) ==> final(raw).http2 == old(raw).http2,
        final(raw).fallback.video_missing_path == a.video_missing_path,
        final(raw).frontend == old(raw).frontend,
        final(raw).backend == old(raw).backend,
        final(raw).backend_nodes == old(raw).backend_nodes,
        final(raw).disk == old(raw).disk,
        final(raw).open_list == old(raw).open_list,
        final(raw).direct_link == old(raw).direct_link,
{
    raw.log.level = a.log_level;
    raw.log.root_path = a.log_root_path;
    raw.log.prefix = a.log_prefix;
    raw.general.memory_mode = a.memory_mode;
    raw.general.encipher_key = encipher_answer(a.encipher_key.as_str());
    raw.general.encipher_iv = encipher_answer(a.encipher_iv.as_str());
    raw.emby.url = normalize_emby_url(a.emby_url.as_str());
    raw.emby.port = a.emby_port;
    raw.emby.token = a.emby_token;
    raw.user_agent.mode = a.ua_mode;
    raw.user_agent.allow_ua = a.allow_ua;
    raw.user_agent.deny_ua = a.deny_ua;
    if let Some(h) = http2_from_answers(a.ssl_cert_file, a.ssl_key_file) {
        raw.http2 = Some(h);
    }
    raw.fallback.video_missing_path = a.video_missing_path;
}

/// `[Frontend]` from its answers; the file check starts off and no client is
/// exempt from the device check.
pub fn frontend_from_answers(
    listen_port: u16,
    path_rewrites: Vec<PathRewriteConfig>,
    anti_reverse_proxy: AntiReverseProxyConfig,
) -> (r: Frontend)
    ensures
        r.listen_port == listen_port,
        !r.check_file_existence,
        r.path_rewrites == path_rewrites,
        r.anti_reverse_proxy == anti_reverse_proxy,
        r.device_id_exempt_clients@.len() == 0,
{
    Frontend {
        listen_port,
        check_file_existence: false,
        path_rewrites,
        anti_reverse_proxy,
        device_id_exempt_clients: Vec::new(),
    }
}

/// `[Backend]` from its answers; the problematic clients are typed
/// comma-separated, and the file check starts on.
pub fn backend_from_answers(
    listen_port: u16,
    base_url: String,
    port: String,
    path: String,
    problematic_clients: &str,
) -> (r: Backend)
    ensures
        r.listen_port == listen_port,
        r.base_url == base_url,
        r.port == port,
        r.path == path,
        r.check_file_existence,
        views(r.problematic_clients@) == trimmed_nonblank(split_on(problematic_clients@, seq![','])),
{
    Backend {
        listen_port,
        base_url,
        port,
        path,
        check_file_existence: true,
        problematic_clients: split_csv(problematic_clients),
    }
}

/// An anti-reverse-proxy setting from its answers: the hosts are read only
/// when it is enabled.
pub fn anti_reverse_from_answers(enable: bool, hosts: &str) -> (r: AntiReverseProxyConfig)
    ensures
        r.enable == enable,
        enable ==> views(r.trusted_hosts@) == trimmed_nonblank(split_on(hosts@, host_separators())),
        !enable ==> r.trusted_hosts@.len() == 0,
{
    if enable {
        AntiReverseProxyConfig { enable, trusted_hosts: trusted_hosts_input(hosts) }
    } else {
        AntiReverseProxyConfig { enable, trusted_hosts: Vec::new() }
    }
}

/// The backend type a node menu position stands for.
pub open spec fn backend_type_name(i: int) -> Seq<char> {
    if i == 1 {
        "OpenList"@
    } else if i == 2 {
        "DirectLink"@
    } else if i == 3 {
        "googleDrive"@
    } else if i == 4 {
        webdav_backend_type()
    } else if i == 5 {
        "StreamRelay"@
    } else {
        "Disk"@
    }
}

/// The backend type of WebDAV nodes.
pub open spec fn webdav_backend_type() -> Seq<char> {
    "WebDav"@
}

/// The backend type at a node menu position (disk for any other position).
pub fn backend_type_for_index(i: usize) -> (r: String)
    ensures
        r@ == backend_type_name(i as int),
{
    if i == 1 {
        copy_str("OpenList")
    } else if i == 2 {
        copy_str("DirectLink")
    } else if i == 3 {
        copy_str("googleDrive")
    } else if i == 4 {
        copy_str("WebDav")
    } else if i == 5 {
        copy_str("StreamRelay")
    } else {
        copy_str("Disk")
    }
}

/// Whether a backend type is WebDAV (ASCII case ignored).
pub fn is_webdav_type(backend_type: &str) -> (r: bool)
    ensures
        r == eq_ignore_case(backend_type@, webdav_backend_type()),
{
    proof {
        reveal_strlit("WebDav");
    }
    eq_ignore_ascii_case(backend_type, "WebDav")
}

/// How many proxy modes a node of this type may choose from: WebDAV nodes
/// also offer `accel_redirect`.
pub fn proxy_mode_choice_count(backend_type: &str) -> (r: usize)
    ensures
        eq_ignore_case(backend_type@, webdav_backend_type()) ==> r == 3,
        !eq_ignore_case(backend_type@, webdav_backend_type()) ==> r == 2,
{
    if is_webdav_type(backend_type) {
        3
    } else {
        2
    }
}

/// The proxy mode at a menu position: `proxy` at the second, `accel_redirect`
/// at the third for WebDAV nodes, `redirect` otherwise.
pub open spec fn proxy_mode_name(i: int, backend_type: Seq<char>) -> Seq<char> {
    if i == 1 {
        "proxy"@
    } else if i == 2 && eq_ignore_case(backend_type, webdav_backend_type()) {
        "accel_redirect"@
    } else {
        "redirect"@
    }
}

/// The proxy mode at a menu position: see `proxy_mode_name`.
pub fn proxy_mode_for_index(i: usize, backend_type: &str) -> (r: String)
    ensures
        r@ == proxy_mode_name(i as int, backend_type@),
{
    if i == 1 {
        copy_str("proxy")
    } else if i == 2 && is_webdav_type(backend_type) {
        copy_str("accel_redirect")
    } else {
        copy_str("redirect")
    }
}

/// The type-specific section a node's backend type asks for.
#[derive(Clone, Copy, Debug, PartialEq, Eq, Structural)]
pub enum NodeSection {
    Disk,
    OpenList,
    DirectLink,
    GoogleDrive,
    WebDav,
    NoSection,
}

/// The section of a backend type: the four named types exactly, WebDAV up to
/// ASCII case, and none for any other type.
pub open spec fn node_section_of(backend_type: Seq<char>) -> NodeSection {
    if backend_type == "Disk"@ {
        NodeSection::Disk
    } else if backend_type == "OpenList"@ {
        NodeSection::OpenList
    } else if backend_type == "DirectLink"@ {
        NodeSection::DirectLink
    } else if backend_type == "googleDrive"@ {
        NodeSection::GoogleDrive
    } else if eq_ignore_case(backend_type, webdav_backend_type()) {
        NodeSection::WebDav
    } else {
        NodeSection::NoSection
    }
}

/// The section a node of this backend type asks for.
pub fn node_section_for(backend_type: &str) -> (r: NodeSection)
    ensures
        r == node_section_of(backend_type@),
{
    if crate::playback_service::str_eq(backend_type, "Disk") {
        NodeSection::Disk
    } else if crate::playback_service::str_eq(backend_type, "OpenList") {
        NodeSection::OpenList
    } else if crate::playback_service::str_eq(backend_type, "DirectLink") {
        NodeSection::DirectLink
    } else if crate::playback_service::str_eq(backend_type, "googleDrive") {
        NodeSection::GoogleDrive
    } else if is_webdav_type(backend_type) {
        NodeSection::WebDav
    } else {
        NodeSection::NoSection
    }
}

/// The answers of a node's type-specific section.
#[derive(Debug, PartialEq)]
pub enum NodeDetail {
    Disk(Disk),
    OpenList(OpenList),
    DirectLink(DirectLink),
    GoogleDrive(GoogleDriveConfig),
    WebDav(WebDavConfig),
    NoDetail,
}

/// The answers common to every backend node.
#[derive(Debug, PartialEq)]
pub struct NodeAnswers {
    pub name: String,
    pub backend_type: String,
    pub pattern: String,
    pub base_url: String,
    pub port: String,
    pub path: String,
    pub priority: i32,
    pub proxy_mode: String,
    pub client_speed_limit_kbs: u64,
    pub client_burst_speed_kbs: u64,
    pub path_rewrites: Vec<PathRewriteConfig>,
    pub anti_reverse_proxy: AntiReverseProxyConfig,
}

/// Whether a sample path matches a pattern, for trying a pattern out:
/// `None` when the pattern does not compile.
pub fn pattern_matches(pattern: &str, sample: &str) -> (r: Option<bool>)
    ensures
        r is Some <==> crate::gateway::regex_compiles(pattern@),
        r matches Some(b) ==> b == crate::gateway::regex_finds(pattern@, sample@),
{
    crate::gateway::regex_is_match(pattern, sample)
}

/// A node pattern is accepted when it is empty or compiles as a regular
/// expression.
pub fn node_pattern_accepted(pattern: &str) -> (r: bool)
    ensures
        r == (pattern@.len() == 0 || crate::gateway::regex_compiles(pattern@)),
{
    if pattern.is_empty() {
        return true;
    }
    crate::gateway::regex_is_match(pattern, "").is_some()
}

/// What the wizard does with a typed path-rewrite pattern.
#[derive(Clone, Copy, Debug, PartialEq, Eq, Structural)]
pub enum RewritePatternStep {
    /// Keep the pattern and go on with the rule.
    Accept,
    /// Ask for the pattern again: it does not compile.
    Retry,
    /// Drop the rule: an enabled rule needs a pattern.
    Skip,
}

/// A disabled rule keeps whatever pattern was typed; an enabled rule with no
/// pattern is skipped, and one whose pattern does not compile asks again.
pub fn rewrite_pattern_step(enable: bool, pattern: &str) -> (r: RewritePatternStep)
    ensures
        !enable ==> r == RewritePatternStep::Accept,
        enable && pattern@.len() == 0 ==> r == RewritePatternStep::Skip,
        enable && pattern@.len() > 0 ==> r == (if crate::gateway::regex_compiles(pattern@) {
            RewritePatternStep::Accept
        } else {
            RewritePatternStep::Retry
        }),
{
    if !enable {
        RewritePatternStep::Accept
    } else if pattern.is_empty() {
        RewritePatternStep::Skip
    } else if node_pattern_accepted(pattern) {
        RewritePatternStep::Accept
    } else {
        RewritePatternStep::Retry
    }
}

/// The section a node's type-specific answers belong to.
pub open spec fn detail_section(detail: NodeDetail) -> NodeSection {
    match detail {
        NodeDetail::Disk(_) => NodeSection::Disk,
        NodeDetail::OpenList(_) => NodeSection::OpenList,
        NodeDetail::DirectLink(_) => NodeSection::DirectLink,
        NodeDetail::GoogleDrive(_) => NodeSection::GoogleDrive,
        NodeDetail::WebDav(_) => NodeSection::WebDav,
        NodeDetail::NoDetail => NodeSection::NoSection,
    }
}

fn detail_section_of(detail: &NodeDetail) -> (r: NodeSection)
    ensures
        r == detail_section(*detail),
{
    match detail {
        NodeDetail::Disk(_) => NodeSection::Disk,
        NodeDetail::OpenList(_) => NodeSection::OpenList,
        NodeDetail::DirectLink(_) => NodeSection::DirectLink,
        NodeDetail::GoogleDrive(_) => NodeSection::GoogleDrive,
        NodeDetail::WebDav(_) => NodeSection::WebDav,
        NodeDetail::NoDetail => NodeSection::NoSection,
    }
}

/// A proxy mode the node menu offers for this backend type: `redirect` and
/// `proxy` always, `accel_redirect` only for WebDAV nodes.
pub open spec fn proxy_mode_offered(mode: Seq<char>, backend_type: Seq<char>) -> bool {
    ||| mode == "redirect"@
    ||| mode == "proxy"@
    ||| mode == "accel_redirect"@ && eq_ignore_case(backend_type, webdav_backend_type())
}

/// Whether `mode` is offered for `backend_type`: see `proxy_mode_offered`.
pub fn is_proxy_mode_offered(mode: &str, backend_type: &str) -> (r: bool)
    ensures
        r == proxy_mode_offered(mode@, backend_type@),
{
    crate::playback_service::str_eq(mode, "redirect") || crate::playback_service::str_eq(mode, "proxy")
        || (crate::playback_service::str_eq(mode, "accel_redirect") && is_webdav_type(backend_type))
}

/// Why a backend node cannot be built from its answers.
#[derive(Clone, Copy, Debug, PartialEq, Eq, Structural)]
pub enum NodeAssemblyError {
    /// The pattern is not empty and does not compile as a regular expression.
    InvalidPattern,
    /// The type-specific answers are not those of the node's backend type.
    SectionMismatch,
    /// The proxy mode is not one the menu offers for the node's type.
    ProxyModeNotOffered,
}

/// A backend node from its answers. The pattern must be empty or compile,
/// the type-specific answers must be those of the node's backend type, and
/// the proxy mode must be one offered for that type; the node then carries
/// the common answers as given, no uuid yet, and exactly that one section.
pub fn assemble_backend_node(answers: NodeAnswers, detail: NodeDetail) -> (r: Result<
    BackendNode,
    NodeAssemblyError,
>)
    ensures
        !(answers.pattern@.len() == 0 || crate::gateway::regex_compiles(answers.pattern@)) ==> r
            == Err::<BackendNode, NodeAssemblyError>(NodeAssemblyError::InvalidPattern),
        (answers.pattern@.len() == 0 || crate::gateway::regex_compiles(answers.pattern@))
            && detail_section(detail) != node_section_of(answers.backend_type@) ==> r == Err::<
            BackendNode,
            NodeAssemblyError,
        >(NodeAssemblyError::SectionMismatch),
        (answers.pattern@.len() == 0 || crate::gateway::regex_compiles(answers.pattern@))
            && detail_section(detail) == node_section_of(answers.backend_type@) && !proxy_mode_offered(
            answers.proxy_mode@,
            answers.backend_type@,
        ) ==> r == Err::<BackendNode, NodeAssemblyError>(NodeAssemblyError::ProxyModeNotOffered),
        r is Ok <==> ((answers.pattern@.len() == 0 || crate::gateway::regex_compiles(answers.pattern@))
            && detail_section(detail) == node_section_of(answers.backend_type@) && proxy_mode_offered(
            answers.proxy_mode@,
            answers.backend_type@,
        )),
        r matches Ok(n) ==> {
            &&& n.name == answers.name
            &&& n.backend_type == answers.backend_type
            &&& n.pattern == answers.pattern
            &&& n.base_url == answers.base_url
            &&& n.port == answers.port
            &&& n.path == answers.path
            &&& n.priority == answers.priority
            &&& n.proxy_mode == answers.proxy_mode
            &&& n.client_speed_limit_kbs == answers.client_speed_limit_kbs
            &&& n.client_burst_speed_kbs == answers.client_burst_speed_kbs
            &&& n.path_rewrites == answers.path_rewrites
            &&& n.anti_reverse_proxy == answers.anti_reverse_proxy
            &&& n.uuid@.len() == 0
            &&& n.disk == (match detail { NodeDetail::Disk(d) => Some(d), _ => None })
            &&& n.open_list == (match detail { NodeDetail::OpenList(o) => Some(o), _ => None })
            &&& n.direct_link == (match detail { NodeDetail::DirectLink(d) => Some(d), _ => None })
            &&& n.google_drive == (match detail { NodeDetail::GoogleDrive(g) => Some(g), _ => None })
            &&& n.webdav == (match detail { NodeDetail::WebDav(w) => Some(w), _ => None })
            &&& n.disk is Some ==> node_section_of(n.backend_type@) == NodeSection::Disk
            &&& n.open_list is Some ==> node_section_of(n.backend_type@) == NodeSection::OpenList
            &&& n.direct_link is Some ==> node_section_of(n.backend_type@) == NodeSection::DirectLink
            &&& n.google_drive is Some ==> node_section_of(n.backend_type@) == NodeSection::GoogleDrive
            &&& n.webdav is Some ==> node_section_of(n.backend_type@) == NodeSection::WebDav
        },
{
    if !node_pattern_accepted(answers.pattern.as_str()) {
        return Err(NodeAssemblyError::InvalidPattern);
    }
    if detail_section_of(&detail) != node_section_for(answers.backend_type.as_str()) {
        return Err(NodeAssemblyError::SectionMismatch);
    }
    if !is_proxy_mode_offered(answers.proxy_mode.as_str(), answers.backend_type.as_str()) {
        return Err(NodeAssemblyError::ProxyModeNotOffered);
    }
    let (disk, open_list, direct_link, google_drive, webdav) = match detail {
        NodeDetail::Disk(d) => (Some(d), None, None, None, None),
        NodeDetail::OpenList(o) => (None, Some(o), None, None, None),
        NodeDetail::DirectLink(d) => (None, None, Some(d), None, None),
        NodeDetail::GoogleDrive(g) => (None, None, None, Some(g), None),
        NodeDetail::WebDav(w) => (None, None, None, None, Some(w)),
        NodeDetail::NoDetail => (None, None, None, None, None),
    };
    Ok(
        BackendNode {
            name: answers.name,
            backend_type: answers.backend_type,
            pattern: answers.pattern,
            base_url: answers.base_url,
            port: answers.port,
            path: answers.path,
            priority: answers.priority,
            proxy_mode: answers.proxy_mode,
            client_speed_limit_kbs: answers.client_speed_limit_kbs,
            client_burst_speed_kbs: answers.client_burst_speed_kbs,
            path_rewrites: answers.path_rewrites,
            anti_reverse_proxy: answers.anti_reverse_proxy,
            uuid: String::new(),
            disk,
            open_list,
            direct_link,
            google_drive,
            webdav,
        },
    )
}

/// The listen port both gateways share in dual mode, which must be changed
/// before the configuration is accepted.
pub open spec fn dual_port_clash(m: crate::config::RawConfigModel) -> Option<u16> {
    if m.general.stream_mode == StreamMode::Dual {
        match (m.frontend, m.backend) {
            (Some(f), Some(b)) => if f.listen_port == b.listen_port {
                Some(f.listen_port)
            } else {
                None
            },
            _ => None,
        }
    } else {
        None
    }
}

/// The shared port, when a dual-mode configuration gives both gateways the
/// same one.
pub fn dual_port_conflict(raw: &RawConfig) -> (r: Option<u16>)
    ensures
        r == dual_port_clash(raw@),
{
    if raw.general.stream_mode == StreamMode::Dual {
        match (&raw.frontend, &raw.backend) {
            (Some(f), Some(b)) => if f.listen_port == b.listen_port {
                Some(f.listen_port)
            } else {
                None
            },
            _ => None,
        }
    } else {
        None
    }
}

/// The name a stream mode has in file names and in the configuration.
pub open spec fn mode_name(mode: StreamMode) -> Seq<char> {
    match mode {
        StreamMode::Frontend => "frontend"@,
        StreamMode::Backend => "backend"@,
        StreamMode::Dual => "dual"@,
    }
}

fn mode_name_str(mode: StreamMode) -> (r: &'static str)
    ensures
        r@ == mode_name(mode),
{
    proof {
        reveal_strlit("frontend");
        reveal_strlit("backend");
        reveal_strlit("dual");
    }
    match mode {
        StreamMode::Frontend => "frontend",
        StreamMode::Backend => "backend",
        StreamMode::Dual => "dual",
    }
}

/// The file name a new configuration gets: the timestamp, the mode and
/// `.toml`.
pub fn config_filename(mode: StreamMode, timestamp: &str) -> (r: String)
    ensures
        r@ == timestamp@ + "_"@ + mode_name(mode) + ".toml"@,
{
    let a = join2(timestamp, "_");
    let b = join2(a.as_str(), mode_name_str(mode));
    join2(b.as_str(), ".toml")
}

/// The file name a new template gets: the timestamp, the mode and
/// `_template.toml`.
pub fn template_filename(mode: StreamMode, timestamp: &str) -> (r: String)
    ensures
        r@ == timestamp@ + "_"@ + mode_name(mode) + "_template.toml"@,
{
    let a = join2(timestamp, "_");
    let b = join2(a.as_str(), mode_name_str(mode));
    join2(b.as_str(), "_template.toml")
}

/// A character a `%Y%m%d_%H%M%S` stamp of a time after 1970 can hold: a
/// digit, the `_` between date and time, or the `+` chrono writes before a
/// year past 9999.
pub open spec fn is_timestamp_char(c: char) -> bool {
    ('0' <= c && c <= '9') || c == '_' || c == '+'
}

/// A `%Y%m%d_%H%M%S` stamp as far as every outcome of the clock allows: at
/// least four year digits and the two-digit month, day, hour, minute and
/// second with the `_` between them, so fifteen characters or more, none of
/// them a path separator or a dot.
pub open spec fn timestamp_text(ts: Seq<char>) -> bool {
    &&& ts.len() >= 15
    &&& forall|i: int| 0 <= i < ts.len() ==> #[trigger] is_timestamp_char(ts[i])
}

/// `chrono::Utc::now().format("%Y%m%d_%H%M%S")` as a string. `Utc::now`
/// reads the system clock (and panics only on a clock set before 1970, so
/// the year is 1970 or later); chrono's formatter writes the year with at
/// least four digits (with a leading `+` past 9999) and each other field as
/// two zero-padded digits. Which time it is, is not stated: it depends on
/// the clock.
#[verifier::external_body]
fn utc_timestamp() -> (r: String)
    ensures
        timestamp_text(r@),
{
    chrono::Utc::now().format("%Y%m%d_%H%M%S").to_string()
}

/// The default file name of a new configuration, stamped with the current
/// UTC time.
pub fn default_filename(mode: StreamMode) -> (r: String)
    ensures
        exists|ts: Seq<char>|
            timestamp_text(ts) && r@ == ts + "_"@ + mode_name(mode) + ".toml"@,
{
    let ts = utc_timestamp();
    let r = config_filename(mode, ts.as_str());
    assert(r@ == ts@ + "_"@ + mode_name(mode) + ".toml"@);
    r
}

/// The default file name of a new template, stamped with the current UTC
/// time.
pub fn default_template_filename(mode: StreamMode) -> (r: String)
    ensures
        exists|ts: Seq<char>|
            timestamp_text(ts) && r@ == ts + "_"@ + mode_name(mode) + "_template.toml"@,
{
    let ts = utc_timestamp();
    let r = template_filename(mode, ts.as_str());
    assert(r@ == ts@ + "_"@ + mode_name(mode) + "_template.toml"@);
    r
}

/// The parts of a configuration the edit menu offers.
#[derive(Clone, Copy, Debug, PartialEq, Eq, Structural)]
pub enum EditMenuChoice {
    Shared,
    Frontend,
    Backend,
    BackendNodes,
    Done,
}

/// The edit menu: the shared sections, the frontend when there is one, the
/// backend and its nodes when there is one, and done.
pub fn edit_menu_choices(has_frontend: bool, has_backend: bool) -> (r: Vec<EditMenuChoice>)
    ensures
        r@ == seq![EditMenuChoice::Shared] + (if has_frontend {
            seq![EditMenuChoice::Frontend]
        } else {
            Seq::empty()
        }) + (if has_backend {
            seq![EditMenuChoice::Backend, EditMenuChoice::BackendNodes]
        } else {
            Seq::empty()
        }) + seq![EditMenuChoice::Done],
{
    let mut r = vec![EditMenuChoice::Shared];
    if has_frontend {
        r.push(EditMenuChoice::Frontend);
    }
    if has_backend {
        r.push(EditMenuChoice::Backend);
        r.push(EditMenuChoice::BackendNodes);
    }
    r.push(EditMenuChoice::Done);
    assert(r@ =~= seq![EditMenuChoice::Shared] + (if has_frontend {
        seq![EditMenuChoice::Frontend]
    } else {
        Seq::empty()
    }) + (if has_backend {
        seq![EditMenuChoice::Backend, EditMenuChoice::BackendNodes]
    } else {
        Seq::empty()
    }) + seq![EditMenuChoice::Done]);
    r
}

/// A file name the wizard writes to in the current directory: not empty,
/// not `.` or `..`, and without a path separator.
pub open spec fn plain_file_name(name: Seq<char>) -> bool {
    &&& name.len() > 0
    &&& name != "."@
    &&& name != ".."@
    &&& !name.contains('/')
    &&& !name.contains('\\')
}

/// Whether `name` names a file in the current directory: see
/// `plain_file_name`.
pub fn is_plain_file_name(name: &str) -> (r: bool)
    ensures
        r == plain_file_name(name@),
{
    let cs = chars_of(name);
    let mut i: usize = 0;
    while i < cs.len()
        invariant
            i <= cs.len(),
            cs@ == name@,
            forall|k: int| 0 <= k < i ==> cs@[k] != '/' && cs@[k] != '\\',
        decreases cs.len() - i,
    {
        if cs[i] == '/' || cs[i] == '\\' {
            assert(name@[i as int] == cs[i as int]);
            return false;
        }
        i = i + 1;
    }
    !cs.is_empty() && !crate::playback_service::str_eq(name, ".") && !crate::playback_service::str_eq(name, "..")
}

/// The actions of the main menu.
#[derive(Clone, Copy, Debug, PartialEq, Eq, Structural)]
pub enum MainMenuAction {
    New,
    Edit,
    Delete,
    Rename,
    Copy,
    Quit,
}

/// The action at a main menu position (quit for any other position).
pub fn main_menu_action(i: usize) -> (r: MainMenuAction)
    ensures
        i == 0 ==> r == MainMenuAction::New,
        i == 1 ==> r == MainMenuAction::Edit,
        i == 2 ==> r == MainMenuAction::Delete,
        i == 3 ==> r == MainMenuAction::Rename,
        i == 4 ==> r == MainMenuAction::Copy,
        i > 4 ==> r == MainMenuAction::Quit,
{
    if i == 0 {
        MainMenuAction::New
    } else if i == 1 {
        MainMenuAction::Edit
    } else if i == 2 {
        MainMenuAction::Delete
    } else if i == 3 {
        MainMenuAction::Rename
    } else if i == 4 {
        MainMenuAction::Copy
    } else {
        MainMenuAction::Quit
    }
}

/// Whether an action needs an existing configuration file to act on.
pub fn action_needs_existing_file(a: MainMenuAction) -> (r: bool)
    ensures
        r == (a == MainMenuAction::Edit || a == MainMenuAction::Delete || a == MainMenuAction::Rename
            || a == MainMenuAction::Copy),
{
    match a {
        MainMenuAction::Edit | MainMenuAction::Delete | MainMenuAction::Rename | MainMenuAction::Copy => true,
        _ => false,
    }
}

} // verus!
