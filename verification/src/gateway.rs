//! Decisions of the frontend gateway: which paths are logged quietly, where a
//! request is proxied to, and how a PlaybackInfo request is served from the
//! cache or from Emby.
use vstd::prelude::*;

use crate::playback_service::{
    HttpMethod, PlaybackInfoRequest, first_playback_window, opt_str_view, path_segments,
    playback_window, response_cache_key, response_cache_key_spec,
};
use crate::text::{contains, contains_text, eq_ignore_ascii_case, eq_ignore_case, first_piece,
    first_piece_of, join2, trim, trim_end_matches_char, trim_str, strip_trailing};

verus! {

/// Whether the regular expression `pattern` compiles (`regex::Regex::new`
/// returns `Ok`).
pub uninterp spec fn regex_compiles(pattern: Seq<char>) -> bool;

/// Whether the compiled `pattern` matches somewhere in `text`
/// (`regex::Regex::is_match`).
pub uninterp spec fn regex_finds(pattern: Seq<char>, text: Seq<char>) -> bool;

/// Compiles `pattern` with `regex::Regex::new` and, when that succeeds, runs
/// `Regex::is_match` on `text`. The contract claims only that the outcome is
/// decided by the pattern (compiles or not) and by the pattern and the text
/// (matches or not); what the regex language means is left to the crate.
#[verifier::external_body]
pub(crate) fn regex_is_match(pattern: &str, text: &str) -> (r: Option<bool>)
    ensures
        r is Some <==> regex_compiles(pattern@),
        r matches Some(b) ==> b == regex_finds(pattern@, text@),
{
    match regex::Regex::new(pattern) {
        Ok(re) => Some(re.is_match(text)),
        Err(_) => None,
    }
}

/// The pattern of the high-volume paths (Emby API and web UI) that are
/// logged at debug level.
pub open spec fn debug_path_pattern() -> Seq<char> {
    "(?i)^/(?:emby/|web/)"@
}

/// Whether `path` is a high-volume path: the debug pattern compiles and
/// matches it.
pub fn is_debug_path(path: &str) -> (r: bool)
    ensures
        r == (regex_compiles(debug_path_pattern()) && regex_finds(debug_path_pattern(), path@)),
{
    let pattern = "(?i)^/(?:emby/|web/)";
    proof {
        reveal_strlit("(?i)^/(?:emby/|web/)");
    }
    match regex_is_match(pattern, path) {
        Some(b) => b,
        None => false,
    }
}

/// `base` without trailing slashes, joined to `path_and_query` by exactly one
/// slash.
pub open spec fn target_url(base: Seq<char>, path_and_query: Seq<char>) -> Seq<char> {
    let b = strip_trailing(base, '/');
    if seq!['/'].is_prefix_of(path_and_query) {
        b + path_and_query
    } else {
        b + seq!['/'] + path_and_query
    }
}

/// The upstream URL of a request: see `target_url`.
pub fn build_target_url(base: &str, path_and_query: &str) -> (r: String)
    ensures
        r@ == target_url(base@, path_and_query@),
{
    let b = trim_end_matches_char(base, '/');
    if crate::text::starts_with(path_and_query, "/") {
        proof {
            reveal_strlit("/");
        }
        join2(b.as_str(), path_and_query)
    } else {
        proof {
            reveal_strlit("/");
        }
        let with_slash = join2(b.as_str(), "/");
        let r = join2(with_slash.as_str(), path_and_query);
        assert(r@ =~= b@ + seq!['/'] + path_and_query@);
        r
    }
}

/// A content type names JSON: its part before any `;`, trimmed, is
/// `application/json` up to ASCII case.
pub open spec fn json_content_type(content_type: Option<Seq<char>>) -> bool {
    match content_type {
        Some(c) => eq_ignore_case(trim(first_piece(c, seq![';'])), "application/json"@),
        None => false,
    }
}

/// Whether a response's content type (absent when the header is missing or
/// not visible ASCII) names JSON.
pub fn is_json_content_type(content_type: Option<&str>) -> (r: bool)
    ensures
        r == json_content_type(opt_str_view(content_type)),
{
    match content_type {
        Some(c) => {
            let seps = vec![';'];
            assert(seps@ =~= seq![';']);
            let first = first_piece_of(c, &seps);
            let t = trim_str(first.as_str());
            eq_ignore_ascii_case(t.as_str(), "application/json")
        },
        None => false,
    }
}

/// A response is cached when its status is a success (2xx) and it is JSON.
pub fn should_cache_response(status: u16, content_type: Option<&str>) -> (r: bool)
    ensures
        r == (200 <= status < 300 && json_content_type(opt_str_view(content_type))),
{
    200 <= status && status < 300 && is_json_content_type(content_type)
}

/// Where the reverse proxy sends a request.
#[derive(Clone, Copy, Debug, PartialEq, Eq, Structural)]
pub enum ProxyRoute {
    /// `/` is redirected (302) to `/web/index.html`.
    RedirectToWebIndex,
    /// A GET or POST whose path names PlaybackInfo.
    PlaybackInfo,
    /// Everything else is proxied to Emby as it is.
    Proxy,
}

/// The route of a request by method and path.
pub fn route_for(method: HttpMethod, path: &str) -> (r: ProxyRoute)
    ensures
        path@ == "/"@ ==> r == ProxyRoute::RedirectToWebIndex,
        path@ != "/"@ ==> (r == ProxyRoute::PlaybackInfo <==> ((method == HttpMethod::Get
            || method == HttpMethod::Post) && contains_text(path@, "PlaybackInfo"@))),
        path@ != "/"@ ==> r != ProxyRoute::RedirectToWebIndex,
{
    if crate::playback_service::str_eq(path, "/") {
        return ProxyRoute::RedirectToWebIndex;
    }
    if (method == HttpMethod::Get || method == HttpMethod::Post) && contains(path, "PlaybackInfo") {
        ProxyRoute::PlaybackInfo
    } else {
        ProxyRoute::Proxy
    }
}

/// What the gateway does next while serving a PlaybackInfo request.
#[derive(Debug, PartialEq)]
pub enum PlaybackInfoStep {
    /// Proxy the request to Emby and relay the answer, caching nothing.
    Passthrough,
    /// Look the response up in the cache without the lock.
    LookupCache { key: String, item_id: String },
    /// Take the per-key lock and look again.
    LockAndLookup { key: String, item_id: String },
    /// Still missing under the lock: proxy the request to Emby.
    FetchUpstream { key: String, item_id: String },
    /// Reply 200 with the cached JSON.
    ReplyCached,
    /// Cache the upstream body under `key`, index its media sources by
    /// `item_id`, and relay the upstream answer.
    StoreAndReply { key: String, item_id: String },
    /// Relay the upstream answer without caching it.
    Reply,
    /// Emby could not be reached or read: reply 502.
    BadGateway,
}

/// The first step: requests whose path names no item go straight to Emby;
/// the others are looked up by the response cache key of their item id and
/// query.
pub fn playback_info_start(path: &str, query: Option<&str>) -> (r: PlaybackInfoStep)
    ensures
        match r {
            PlaybackInfoStep::Passthrough => forall|i: int| !#[trigger] playback_window(path_segments(path@), i),
            PlaybackInfoStep::LookupCache { key, item_id } => {
                &&& exists|i: int| #[trigger] playback_window(path_segments(path@), i)
                    && first_playback_window(path_segments(path@), i)
                    && item_id@ == path_segments(path@)[i + 1]
                &&& key@ == response_cache_key_spec(item_id@, opt_str_view(query))
            },
            _ => false,
        },
{
    match PlaybackInfoRequest::item_id_from_path(path) {
        None => PlaybackInfoStep::Passthrough,
        Some(item_id) => {
            let key = response_cache_key(item_id.as_str(), query);
            PlaybackInfoStep::LookupCache { key, item_id }
        },
    }
}

/// After a cache lookup: a hit is replayed; a first miss takes the lock and
/// looks again; a miss under the lock goes to Emby.
pub fn playback_info_after_lookup(key: String, item_id: String, locked: bool, hit: bool) -> (r: PlaybackInfoStep)
    ensures
        hit ==> r is ReplyCached,
        !hit && !locked ==> (r matches PlaybackInfoStep::LockAndLookup { key: k, item_id: i } && k == key && i == item_id),
        !hit && locked ==> (r matches PlaybackInfoStep::FetchUpstream { key: k, item_id: i } && k == key && i == item_id),
{
    if hit {
        PlaybackInfoStep::ReplyCached
    } else if !locked {
        PlaybackInfoStep::LockAndLookup { key, item_id }
    } else {
        PlaybackInfoStep::FetchUpstream { key, item_id }
    }
}

/// After Emby answered (`Some` with its status and content type) or could
/// not be reached (`None`): a successful JSON answer is cached, any other is
/// only relayed.
pub fn playback_info_after_upstream(
    key: String,
    item_id: String,
    status: Option<u16>,
    content_type: Option<&str>,
) -> (r: PlaybackInfoStep)
    ensures
        status is None ==> r is BadGateway,
        status matches Some(s) ==> (if 200 <= s < 300 && json_content_type(opt_str_view(content_type)) {
            r matches PlaybackInfoStep::StoreAndReply { key: k, item_id: i } && k == key && i == item_id
        } else {
            r is Reply
        }),
{
    match status {
        None => PlaybackInfoStep::BadGateway,
        Some(s) => if should_cache_response(s, content_type) {
            PlaybackInfoStep::StoreAndReply { key, item_id }
        } else {
            PlaybackInfoStep::Reply
        },
    }
}

/// Whether a client request header is passed on to Emby: every header but
/// `Host` and `Transfer-Encoding` (names compared up to ASCII case).
pub fn forwards_request_header(name: &str) -> (r: bool)
    ensures
        r == !(eq_ignore_case(name@, "host"@) || eq_ignore_case(name@, "transfer-encoding"@)),
{
    !(eq_ignore_ascii_case(name, "host") || eq_ignore_ascii_case(name, "transfer-encoding"))
}

/// Whether an Emby response header is relayed to the client: every header
/// but `Transfer-Encoding` (the body is relayed whole).
pub fn relays_response_header(name: &str) -> (r: bool)
    ensures
        r == !eq_ignore_case(name@, "transfer-encoding"@),
{
    !eq_ignore_ascii_case(name, "transfer-encoding")
}

/// Whether a client header is kept on a stream redirect: every header but
/// `Host`.
pub fn keeps_header_on_redirect(name: &str) -> (r: bool)
    ensures
        r == !eq_ignore_case(name@, "host"@),
{
    !eq_ignore_ascii_case(name, "host")
}

/// `s` with its trailing `c`s stripped no longer ends with `c`.
pub proof fn lemma_strip_trailing_ends_without(s: Seq<char>, c: char)
    ensures
        strip_trailing(s, c).len() == 0 || strip_trailing(s, c).last() != c,
    decreases s.len(),
{
    if s.len() > 0 && s.last() == c {
        lemma_strip_trailing_ends_without(s.drop_last(), c);
    }
}

/// The upstream URL is the base without trailing slashes, exactly one slash,
/// and the request target without its own leading slash.
pub proof fn lemma_target_url_single_separator(base: Seq<char>, path_and_query: Seq<char>)
    ensures
        ({
            let b = strip_trailing(base, '/');
            let rest = if seq!['/'].is_prefix_of(path_and_query) {
                path_and_query.drop_first()
            } else {
                path_and_query
            };
            &&& target_url(base, path_and_query) == b + seq!['/'] + rest
            &&& b.len() == 0 || b.last() != '/'
        }),
{
    lemma_strip_trailing_ends_without(base, '/');
    let b = strip_trailing(base, '/');
    if seq!['/'].is_prefix_of(path_and_query) {
        assert(path_and_query =~= seq!['/'] + path_and_query.drop_first());
        assert(b + path_and_query =~= b + seq!['/'] + path_and_query.drop_first());
    }
}

} // verus!
