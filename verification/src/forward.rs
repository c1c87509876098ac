//! Decisions of the frontend forward service: which token and device id a
//! stream request carries, which media source it is routed to, the cache
//! keys of signed links and `.strm` files, and the cache sizes of a memory
//! mode.
use vstd::prelude::*;

use crate::auth_header::{auth_param, authorization_param};
use crate::digest::{digest_of, hash_hex};
use crate::forms::{form_pairs, parse_form_pairs};
use crate::order::pair_views;
use crate::playback::{first_with_id, none_with_id, PlaybackInfo};
use crate::playback_service::{
    opt_str_view, opt_string_view, PlaybackInfoServiceError, RequestHeaders,
};
use crate::text::{
    copy_str, ends_with, eq_ignore_ascii_case, eq_ignore_case, join2, lower, to_lower,
    to_unicode_lower, trim, trim_str, unicode_lower,
};

verus! {

/// Why a forward request failed.
#[derive(Debug, PartialEq)]
pub enum ForwardError {
    EmptyEmbyToken,
    EmptyEmbyDeviceId,
    EmbyPathRequestError,
    EmbyPathParserError,
    InvalidUri,
    FileNotFound(String),
    StrmFileIoError(String),
    EmptyStrmFile,
    StrmFileTooLarge,
    InvalidMediaSource,
    InvalidStrmFile,
}

/// What a stream request is forwarded with.
#[derive(Debug, PartialEq)]
pub struct ForwardInfo {
    pub item_id: String,
    pub media_source_id: String,
    pub path: String,
    pub device_id: String,
    pub playback_session_id: String,
}

/// The cache key of a signed link: fails when the item id or the media
/// source id is empty.
pub fn encrypt_key(params: &ForwardInfo) -> (r: Result<String, ForwardError>)
    ensures
        (params.item_id@.len() == 0 || params.media_source_id@.len() == 0) <==> r is Err,
        r matches Err(e) ==> e is InvalidMediaSource,
        r matches Ok(k) ==> k@ == "forward:sign_encrypt:item_id:"@ + lower(params.item_id@)
            + ":media_source_id:"@ + lower(params.media_source_id@),
{
    if params.item_id.as_str().is_empty() || params.media_source_id.as_str().is_empty() {
        return Err(ForwardError::InvalidMediaSource);
    }
    let a = join2("forward:sign_encrypt:item_id:", to_lower(params.item_id.as_str()).as_str());
    let b = join2(a.as_str(), ":media_source_id:");
    Ok(join2(b.as_str(), to_lower(params.media_source_id.as_str()).as_str()))
}

/// The cache key of a `.strm` file: a digest of its lower-cased path; fails
/// on an empty path.
pub fn strm_cache_key(path: &str) -> (r: Result<String, ForwardError>)
    ensures
        path@.len() == 0 <==> r is Err,
        r matches Err(e) ==> e is InvalidStrmFile,
        r matches Ok(k) ==> k@ == "frontend:strm:path_hash:"@ + digest_of(unicode_lower(path@)),
{
    if path.is_empty() {
        return Err(ForwardError::InvalidStrmFile);
    }
    let h = hash_hex(to_unicode_lower(path).as_str());
    Ok(join2("frontend:strm:path_hash:", h.as_str()))
}

/// Whether a media path is a `.strm` file that must be read for the real
/// location.
pub fn is_strm_path(path: &str) -> (r: bool)
    ensures
        r == ".strm"@.is_suffix_of(path@),
{
    ends_with(path, ".strm")
}

/// The largest `.strm` file that is read (1 MiB).
pub const MAX_STRM_FILE_SIZE: u64 = 1048576;

/// Whether a `.strm` file of `len` bytes may be read: an empty file and a
/// file over 1 MiB are refused.
pub fn check_strm_size(len: u64) -> (r: Result<(), ForwardError>)
    ensures
        len == 0 ==> (r matches Err(e) && e is EmptyStrmFile),
        len > MAX_STRM_FILE_SIZE ==> (r matches Err(e) && e is StrmFileTooLarge),
        0 < len <= MAX_STRM_FILE_SIZE ==> r is Ok,
{
    if len == 0 {
        Err(ForwardError::EmptyStrmFile)
    } else if len > MAX_STRM_FILE_SIZE {
        Err(ForwardError::StrmFileTooLarge)
    } else {
        Ok(())
    }
}

/// The (capacity, time to live in seconds) of the caches for a memory mode.
pub open spec fn cache_settings_spec(memory_mode: Seq<char>) -> (u64, u64) {
    if memory_mode == "low"@ {
        (256, 14400)
    } else if memory_mode == "high"@ {
        (2048, 43200)
    } else {
        (512, 28800)
    }
}

/// The cache capacity and time to live of a memory mode: `low`, `high`, or
/// anything else (the middle setting).
pub fn cache_settings(memory_mode: &str) -> (r: (u64, u64))
    ensures
        r == cache_settings_spec(memory_mode@),
{
    if crate::playback_service::str_eq(memory_mode, "low") {
        (256, 60 * 60 * 4)
    } else if crate::playback_service::str_eq(memory_mode, "high") {
        (2048, 60 * 60 * 12)
    } else {
        (512, 60 * 60 * 8)
    }
}

/// Whether a query name carries the Emby token for a stream request.
pub open spec fn is_stream_token_name(key: Seq<char>) -> bool {
    eq_ignore_case(key, "api_key"@) || eq_ignore_case(key, "X-Emby-Token"@)
}

/// The value of the first pair whose name satisfies the given test.
pub open spec fn first_value_where(
    pairs: Seq<(Seq<char>, Seq<char>)>,
    test: spec_fn(Seq<char>) -> bool,
) -> Option<Seq<char>>
    decreases pairs.len(),
{
    if pairs.len() == 0 {
        None
    } else if test(pairs[0].0) {
        Some(pairs[0].1)
    } else {
        first_value_where(pairs.drop_first(), test)
    }
}

pub open spec fn stream_token_test() -> spec_fn(Seq<char>) -> bool {
    |k: Seq<char>| is_stream_token_name(k)
}

pub open spec fn device_id_test() -> spec_fn(Seq<char>) -> bool {
    |k: Seq<char>| eq_ignore_case(k, "DeviceId"@)
}

/// The value in `query` of the first name that passes `which`.
fn query_value(query: &str, device: bool) -> (r: Option<String>)
    ensures
        opt_string_view(r) == first_value_where(
            form_pairs(query@),
            if device {
                device_id_test()
            } else {
                stream_token_test()
            },
        ),
{
    let ghost test = if device {
        device_id_test()
    } else {
        stream_token_test()
    };
    let pairs = parse_form_pairs(query);
    let ghost pv = pair_views(pairs@);
    let mut i: usize = 0;
    assert(pv.skip(0) =~= pv);
    while i < pairs.len()
        invariant
            i <= pairs.len(),
            pv == pair_views(pairs@),
            pv == form_pairs(query@),
            test == (if device {
                device_id_test()
            } else {
                stream_token_test()
            }),
            first_value_where(pv, test) == first_value_where(pv.skip(i as int), test),
        decreases pairs.len() - i,
    {
        assert(pv.skip(i as int)[0] == (pairs@[i as int].0@, pairs@[i as int].1@));
        let k = pairs[i].0.as_str();
        let hit = if device {
            eq_ignore_ascii_case(k, "DeviceId")
        } else {
            eq_ignore_ascii_case(k, "api_key") || eq_ignore_ascii_case(k, "X-Emby-Token")
        };
        if hit {
            assert(first_value_where(pv.skip(i as int), test) == Some(pv.skip(i as int)[0].1));
            return Some(pairs[i].1.clone());
        }
        assert(pv.skip(i as int).drop_first() =~= pv.skip(i + 1));
        i = i + 1;
    }
    assert(pv.skip(i as int).len() == 0);
    None
}

/// The non-empty value of an authorization parameter.
pub open spec fn nonempty_auth_param(h: RequestHeaders, name: Seq<char>) -> Option<Seq<char>> {
    match h.x_emby_authorization {
        Some(a) => match auth_param(a@, name) {
            Some(v) => if v.len() > 0 {
                Some(v)
            } else {
                None
            },
            None => None,
        },
        None => None,
    }
}

/// The Emby token of a stream request: the query's `api_key` or
/// `X-Emby-Token`, else the `X-Emby-Token` header, else the non-empty
/// `Token` parameter of `x-emby-authorization`, else the fallback (empty
/// when there is none).
pub open spec fn stream_token_spec(
    query: Option<Seq<char>>,
    h: RequestHeaders,
    fallback: Option<Seq<char>>,
) -> Seq<char> {
    let q = match query {
        Some(q) => first_value_where(form_pairs(q), stream_token_test()),
        None => None,
    };
    if q is Some {
        q->0
    } else if h.x_emby_token is Some {
        h.x_emby_token->0@
    } else if nonempty_auth_param(h, "Token"@) is Some {
        nonempty_auth_param(h, "Token"@)->0
    } else if fallback is Some {
        fallback->0
    } else {
        Seq::empty()
    }
}

/// The non-empty value of the authorization parameter `name`.
fn nonempty_param(h: &RequestHeaders, name: &str) -> (r: Option<String>)
    ensures
        opt_string_view(r) == nonempty_auth_param(*h, name@),
{
    match &h.x_emby_authorization {
        Some(a) => match authorization_param(a.as_str(), name) {
            Some(v) => if v.as_str().is_empty() {
                None
            } else {
                Some(v)
            },
            None => None,
        },
        None => None,
    }
}

/// The Emby token of a stream request (see `stream_token_spec`).
pub fn emby_api_token(query: Option<&str>, headers: &RequestHeaders, fallback: Option<&str>) -> (r:
    String)
    ensures
        r@ == stream_token_spec(opt_str_view(query), *headers, opt_str_view(fallback)),
{
    let q = match query {
        Some(q) => query_value(q, false),
        None => None,
    };
    if let Some(t) = q {
        return t;
    }
    if let Some(t) = &headers.x_emby_token {
        return t.clone();
    }
    if let Some(t) = nonempty_param(headers, "Token") {
        return t;
    }
    match fallback {
        Some(f) => copy_str(f),
        None => String::new(),
    }
}

/// The device id of a stream request: the query's `DeviceId`, else the
/// `DeviceId` header, else the non-empty `DeviceId` parameter of
/// `x-emby-authorization`, else the request's Emby token without fallback.
pub open spec fn device_id_spec(query: Option<Seq<char>>, h: RequestHeaders) -> Seq<char> {
    let q = match query {
        Some(q) => first_value_where(form_pairs(q), device_id_test()),
        None => None,
    };
    if q is Some {
        q->0
    } else if h.device_id is Some {
        h.device_id->0@
    } else if nonempty_auth_param(h, "DeviceId"@) is Some {
        nonempty_auth_param(h, "DeviceId"@)->0
    } else {
        stream_token_spec(query, h, None)
    }
}

/// The device id of a stream request (see `device_id_spec`).
pub fn device_id(query: Option<&str>, headers: &RequestHeaders) -> (r: String)
    ensures
        r@ == device_id_spec(opt_str_view(query), *headers),
{
    let q = match query {
        Some(q) => query_value(q, true),
        None => None,
    };
    if let Some(t) = q {
        return t;
    }
    if let Some(t) = &headers.device_id {
        return t.clone();
    }
    if let Some(t) = nonempty_param(headers, "DeviceId") {
        return t;
    }
    emby_api_token(query, headers, None)
}

/// The credentials a stream request must carry: a non-empty token, then a
/// non-empty device id.
pub fn check_forward_credentials(emby_token: &str, device_id: &str) -> (r: Result<(), ForwardError>)
    ensures
        emby_token@.len() == 0 ==> (r matches Err(e) && e is EmptyEmbyToken),
        emby_token@.len() > 0 && device_id@.len() == 0 ==> (r matches Err(e) && e is EmptyEmbyDeviceId),
        emby_token@.len() > 0 && device_id@.len() > 0 ==> r is Ok,
{
    if emby_token.is_empty() {
        Err(ForwardError::EmptyEmbyToken)
    } else if device_id.is_empty() {
        Err(ForwardError::EmptyEmbyDeviceId)
    } else {
        Ok(())
    }
}

/// The media source id of a stream request's path parameter: none when it
/// is blank, else the trimmed id.
pub fn requested_media_source_id(param: &str) -> (r: Option<String>)
    ensures
        trim(param@).len() == 0 ==> r is None,
        trim(param@).len() > 0 ==> (r matches Some(x) && x@ == trim(param@)),
{
    let t = trim_str(param);
    if t.as_str().is_empty() {
        None
    } else {
        Some(t)
    }
}

/// The forward info of a stream request once its PlaybackInfo is known: the
/// selected media source must exist and have a path. A failed PlaybackInfo
/// lookup is a request error.
pub fn forward_info_from_playback(
    item_id: &str,
    media_source_id: Option<&str>,
    device_id: &str,
    playback_info: Result<PlaybackInfo, PlaybackInfoServiceError>,
    playback_session_id: &str,
) -> (r: Result<ForwardInfo, ForwardError>)
    ensures
        playback_info is Err ==> (r matches Err(e) && e is EmbyPathRequestError),
        playback_info matches Ok(info) ==> match media_source_id {
            Some(m) if trim(m@).len() > 0 => {
                &&& none_with_id(info.media_sources@, trim(m@)) ==> (r matches Err(e)
                    && e is EmbyPathParserError)
                &&& forall|i: int| #[trigger]
                    first_with_id(info.media_sources@, trim(m@), i) ==> selected_result(
                        info.media_sources@[i],
                        item_id@,
                        device_id@,
                        playback_session_id@,
                        r,
                    )
            },
            _ => if info.media_sources@.len() == 1 {
                selected_result(
                    info.media_sources@[0],
                    item_id@,
                    device_id@,
                    playback_session_id@,
                    r,
                )
            } else {
                r matches Err(e) && e is EmbyPathParserError
            },
        },
{
    let info = match playback_info {
        Ok(info) => info,
        Err(_) => return Err(ForwardError::EmbyPathRequestError),
    };
    let source = match info.select_media_source(media_source_id) {
        Some(s) => s,
        None => return Err(ForwardError::EmbyPathParserError),
    };
    let selected_id = match &source.id {
        Some(x) => x.clone(),
        None => String::new(),
    };
    let path = match &source.path {
        Some(p) => p.clone(),
        None => return Err(ForwardError::EmbyPathParserError),
    };
    Ok(
        ForwardInfo {
            item_id: copy_str(item_id),
            media_source_id: selected_id,
            path,
            device_id: copy_str(device_id),
            playback_session_id: copy_str(playback_session_id),
        },
    )
}

/// The outcome for a selected media source: its path is required; the info
/// carries its id (empty when it has none).
pub open spec fn selected_result(
    source: crate::playback::MediaSource,
    item_id: Seq<char>,
    device_id: Seq<char>,
    session_id: Seq<char>,
    r: Result<ForwardInfo, ForwardError>,
) -> bool {
    match source.path {
        None => r matches Err(e) && e is EmbyPathParserError,
        Some(p) => r matches Ok(fi) && fi.item_id@ == item_id && fi.path@ == p@ && fi.device_id@
            == device_id && fi.playback_session_id@ == session_id && fi.media_source_id@ == (
        match source.id {
            Some(x) => x@,
            None => Seq::empty(),
        }),
    }
}

/// What resolving a media path does next (a `.strm` file holds the real
/// location; it is cached by path, read under a per-key lock, and read at
/// most once per cache lifetime).
#[derive(Debug, PartialEq)]
pub enum StrmStep {
    /// The media path is final.
    Resolved(String),
    /// Resolving failed.
    Failed(ForwardError),
    /// Look the path up in the `.strm` cache without the lock.
    LookupCache { key: String },
    /// Take the per-key lock and look again.
    LockAndLookup { key: String },
    /// Still missing under the lock: read the file's size.
    ReadSize { key: String },
    /// The size is acceptable: read the file.
    ReadContent { key: String },
    /// Cache `path` under `key`; it is the resolved location.
    StoreAndResolve { key: String, path: String },
}

/// The first step: a path that is no `.strm` file is final; a `.strm` file
/// is looked up by its cache key.
pub fn strm_start(path: &str) -> (r: StrmStep)
    ensures
        !".strm"@.is_suffix_of(path@) ==> (r matches StrmStep::Resolved(p) && p@ == path@),
        ".strm"@.is_suffix_of(path@) ==> (r matches StrmStep::LookupCache { key } && key@
            == "frontend:strm:path_hash:"@ + digest_of(unicode_lower(path@))),
{
    if !is_strm_path(path) {
        return StrmStep::Resolved(copy_str(path));
    }
    proof {
        reveal_strlit(".strm");
    }
    match strm_cache_key(path) {
        Ok(key) => StrmStep::LookupCache { key },
        Err(e) => StrmStep::Failed(e),
    }
}

/// After a cache lookup: a cached location is final; a first miss takes the
/// lock and looks again; a miss under the lock reads the file.
pub fn strm_after_lookup(key: String, locked: bool, cached: Option<String>) -> (r: StrmStep)
    ensures
        cached matches Some(p) ==> r == StrmStep::Resolved(p),
        cached is None && !locked ==> r == (StrmStep::LockAndLookup { key }),
        cached is None && locked ==> r == (StrmStep::ReadSize { key }),
{
    match cached {
        Some(p) => StrmStep::Resolved(p),
        None => if !locked {
            StrmStep::LockAndLookup { key }
        } else {
            StrmStep::ReadSize { key }
        },
    }
}

/// After reading the file's size (or failing to): an unreadable, empty or
/// oversized file fails; any other is read.
pub fn strm_after_size(key: String, size: Result<u64, String>) -> (r: StrmStep)
    ensures
        size matches Err(e) ==> r == StrmStep::Failed(ForwardError::StrmFileIoError(e)),
        size matches Ok(n) ==> (if n == 0 {
            r == StrmStep::Failed(ForwardError::EmptyStrmFile)
        } else if n > MAX_STRM_FILE_SIZE {
            r == StrmStep::Failed(ForwardError::StrmFileTooLarge)
        } else {
            r == (StrmStep::ReadContent { key })
        }),
{
    match size {
        Err(e) => StrmStep::Failed(ForwardError::StrmFileIoError(e)),
        Ok(n) => match check_strm_size(n) {
            Err(e) => StrmStep::Failed(e),
            Ok(()) => StrmStep::ReadContent { key },
        },
    }
}

/// After reading the file (or failing to): its trimmed text is the location,
/// and is cached.
pub fn strm_after_read(key: String, content: Result<String, String>) -> (r: StrmStep)
    ensures
        content matches Err(e) ==> r == StrmStep::Failed(ForwardError::StrmFileIoError(e)),
        content matches Ok(c) ==> (r matches StrmStep::StoreAndResolve { key: k, path } && k == key
            && path@ == trim(c@)),
{
    match content {
        Err(e) => StrmStep::Failed(ForwardError::StrmFileIoError(e)),
        Ok(c) => StrmStep::StoreAndResolve { key, path: trim_str(c.as_str()) },
    }
}

/// The query a signed stream link carries: the encrypted sign, the device
/// id and the playback session id, form-encoded in that order.
pub fn signed_stream_query(sign: &str, device_id: &str, session_id: &str) -> (r: String)
    ensures
        r@ == crate::forms::form_serialized(
            seq![("sign"@, sign@), ("device_id"@, device_id@), ("session_id"@, session_id@)],
        ),
{
    let mut pairs: Vec<(String, String)> = Vec::new();
    pairs.push((copy_str("sign"), copy_str(sign)));
    pairs.push((copy_str("device_id"), copy_str(device_id)));
    pairs.push((copy_str("session_id"), copy_str(session_id)));
    assert(pair_views(pairs@) =~= seq![
        ("sign"@, sign@),
        ("device_id"@, device_id@),
        ("session_id"@, session_id@),
    ]);
    crate::forms::serialize_form_pairs(&pairs)
}

/// The HTTP status a stream request is refused with when its link cannot be
/// signed: 404 when the media file is missing, 500 otherwise.
pub fn signing_error_status(e: &ForwardError) -> (r: u16)
    ensures
        e is FileNotFound ==> r == 404,
        !(e is FileNotFound) ==> r == 500,
{
    match e {
        ForwardError::FileNotFound(_) => 404,
        _ => 500,
    }
}

/// Where a stream request is sent: the signed link, and the client's
/// headers to send along.
#[derive(Debug, PartialEq)]
pub struct RedirectInfo {
    pub target_url: String,
    pub final_headers: Vec<(String, String)>,
}

/// The client's headers without every `Host` header, the others kept in
/// their order.
pub open spec fn redirect_headers(h: Seq<(Seq<char>, Seq<char>)>) -> Seq<(Seq<char>, Seq<char>)>
    decreases h.len(),
{
    if h.len() == 0 {
        Seq::empty()
    } else {
        let kept = redirect_headers(h.drop_last());
        if eq_ignore_case(h.last().0, "host"@) {
            kept
        } else {
            kept.push(h.last())
        }
    }
}

/// The redirect to a signed link: the link, and the client's headers
/// without `Host`.
pub fn build_redirect_info(url: String, original_headers: &Vec<(String, String)>) -> (r:
    RedirectInfo)
    ensures
        r.target_url@ == url@,
        pair_views(r.final_headers@) == redirect_headers(pair_views(original_headers@)),
{
    let mut kept: Vec<(String, String)> = Vec::new();
    let mut i: usize = 0;
    let ghost h = pair_views(original_headers@);
    proof {
        assert(h.take(0) =~= Seq::<(Seq<char>, Seq<char>)>::empty());
        assert(pair_views(kept@) =~= Seq::<(Seq<char>, Seq<char>)>::empty());
    }
    while i < original_headers.len()
        invariant
            i <= original_headers.len(),
            h == pair_views(original_headers@),
            pair_views(kept@) == redirect_headers(h.take(i as int)),
        decreases original_headers.len() - i,
    {
        let name = &original_headers[i].0;
        let value = &original_headers[i].1;
        proof {
            assert(h.take(i as int + 1).drop_last() =~= h.take(i as int));
            assert(h.take(i as int + 1).last() == h[i as int]);
        }
        if !eq_ignore_ascii_case(name.as_str(), "host") {
            let ghost before = pair_views(kept@);
            kept.push((copy_str(name.as_str()), copy_str(value.as_str())));
            proof {
                assert(pair_views(kept@) =~= before.push(h[i as int]));
            }
        }
        i = i + 1;
    }
    proof {
        assert(h.take(i as int) =~= h);
    }
    RedirectInfo { target_url: url, final_headers: kept }
}

/// What answering a stream request does next.
#[derive(Debug, PartialEq)]
pub enum ForwardStep {
    /// Sign a link for the resolved request.
    Sign(ForwardInfo),
    /// Answer with this HTTP status.
    Refuse(u16),
    /// Redirect the client.
    Redirect(RedirectInfo),
}

/// After resolving what a stream request asks for: a request that cannot be
/// resolved is answered 400 Bad Request; a resolved one is signed.
pub fn forward_after_info(info: Result<ForwardInfo, ForwardError>) -> (r: ForwardStep)
    ensures
        info is Err ==> r == ForwardStep::Refuse(400),
        info matches Ok(i) ==> r == ForwardStep::Sign(i),
{
    match info {
        Err(_) => ForwardStep::Refuse(400),
        Ok(i) => ForwardStep::Sign(i),
    }
}

/// After signing: a missing file is answered 404 Not Found, any other
/// failure 500 Internal Server Error; a signed link is a redirect that
/// carries the client's headers without `Host`.
pub fn forward_after_signing(
    signed: Result<String, ForwardError>,
    original_headers: &Vec<(String, String)>,
) -> (r: ForwardStep)
    ensures
        signed matches Err(e) ==> r == ForwardStep::Refuse(if e is FileNotFound {
            404
        } else {
            500
        }),
        signed matches Ok(uri) ==> (r matches ForwardStep::Redirect(ri) && ri.target_url@ == uri@
            && pair_views(ri.final_headers@) == redirect_headers(pair_views(original_headers@))),
{
    match signed {
        Err(e) => ForwardStep::Refuse(signing_error_status(&e)),
        Ok(uri) => ForwardStep::Redirect(build_redirect_info(uri, original_headers)),
    }
}

/// Routing that took 200 ms or more is logged as slow.
pub fn is_slow_routing(elapsed_ms: u128) -> (r: bool)
    ensures
        r == (elapsed_ms >= 200),
{
    elapsed_ms >= 200
}

} // verus!
