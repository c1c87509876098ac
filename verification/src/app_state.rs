//! What the shared application state derives from the configuration: the
//! clients that need the missing-Range workaround, the per-node rate
//! limiters, the nodes whose connections are warmed up, and cache sizes.
use vstd::prelude::*;

use crate::config::{BackendNode, BackendNodeModel, node_views, views};
use crate::forward::{cache_settings, cache_settings_spec};
use crate::text::{copy_str, eq_ignore_ascii_case, eq_ignore_case, to_unicode_lower, unicode_lower};
use crate::wizard::{is_webdav_type, webdav_backend_type};

verus! {

/// The clients that are always treated as problematic.
pub open spec fn default_problematic_clients() -> Seq<Seq<char>> {
    seq!["yamby"@, "hills"@, "embytolocalplayer"@, "Emby/"@]
}

/// Every client name considered, lower-cased: the defaults, then those of
/// the backend configuration.
pub open spec fn problematic_candidates(backend: Seq<Seq<char>>) -> Seq<Seq<char>> {
    (default_problematic_clients() + backend).map_values(|c: Seq<char>| unicode_lower(c))
}

fn contains_string(v: &Vec<String>, s: &str) -> (r: bool)
    ensures
        r == views(v@).contains(s@),
{
    let mut i: usize = 0;
    while i < v.len()
        invariant
            i <= v.len(),
            forall|k: int| 0 <= k < i ==> v@[k]@ != s@,
        decreases v.len() - i,
    {
        if crate::playback_service::str_eq(v[i].as_str(), s) {
            assert(views(v@)[i as int] == s@);
            return true;
        }
        i = i + 1;
    }
    assert forall|k: int| 0 <= k < views(v@).len() implies views(v@)[k] != s@ by {
        assert(views(v@)[k] == v@[k]@);
    }
    false
}

/// The clients that get the missing-Range workaround: the default names and
/// those of the backend section, lower-cased, each once, none empty. The
/// order is not part of the contract.
pub fn problematic_clients(backend_clients: Option<&Vec<String>>) -> (r: Vec<String>)
    ensures
        views(r@).no_duplicates(),
        forall|x: Seq<char>| #[trigger] views(r@).contains(x) <==> (x.len() > 0
            && problematic_candidates(match backend_clients {
            Some(b) => views(b@),
            None => Seq::empty(),
        }).contains(x)),
{
    let ghost backend: Seq<Seq<char>> = match backend_clients {
        Some(b) => views(b@),
        None => Seq::empty(),
    };
    let mut names: Vec<String> = Vec::new();
    names.push(copy_str("yamby"));
    names.push(copy_str("hills"));
    names.push(copy_str("embytolocalplayer"));
    names.push(copy_str("Emby/"));
    proof {
        reveal_strlit("yamby");
        reveal_strlit("hills");
        reveal_strlit("embytolocalplayer");
        reveal_strlit("Emby/");
    }
    assert(views(names@) =~= default_problematic_clients());
    match backend_clients {
        Some(b) => {
            let mut k: usize = 0;
            while k < b.len()
                invariant
                    k <= b.len(),
                    views(names@) == default_problematic_clients() + views(b@).take(k as int),
                decreases b.len() - k,
            {
                let ghost before = views(names@);
                names.push(copy_str(b[k].as_str()));
                assert(views(names@) =~= before.push(b@[k as int]@));
                assert(views(b@).take(k + 1) =~= views(b@).take(k as int).push(b@[k as int]@));
                k = k + 1;
            }
            assert(views(b@).take(b.len() as int) =~= views(b@));
        },
        None => {
            assert(views(names@) =~= default_problematic_clients() + backend);
        },
    }
    let ghost all = problematic_candidates(backend);
    assert(all.len() == names.len());
    let mut out: Vec<String> = Vec::new();
    let mut i: usize = 0;
    while i < names.len()
        invariant
            i <= names.len(),
            all == views(names@).map_values(|c: Seq<char>| unicode_lower(c)),
            views(out@).no_duplicates(),
            forall|x: Seq<char>| #[trigger] views(out@).contains(x) <==> (x.len() > 0
                && all.take(i as int).contains(x)),
        decreases names.len() - i,
    {
        let l = to_unicode_lower(names[i].as_str());
        let ghost pre = all.take(i as int);
        let ghost nxt = all.take(i + 1);
        assert(all[i as int] == l@);
        assert(nxt =~= pre.push(l@));
        if !l.as_str().is_empty() && !contains_string(&out, l.as_str()) {
            let ghost before = views(out@);
            out.push(l);
            assert(views(out@) =~= before.push(l@));
            assert forall|x: Seq<char>| #[trigger] views(out@).contains(x) <==> (x.len() > 0
                && all.take(i + 1).contains(x)) by {
                if views(out@).contains(x) {
                    if x == l@ {
                        assert(nxt[i as int] == x);
                    } else {
                        let j = choose|j: int| 0 <= j < views(out@).len() && #[trigger] views(out@)[j] == x;
                        assert(before[j] == x);
                        assert(before.contains(x));
                        let k = choose|k: int| 0 <= k < pre.len() && #[trigger] pre[k] == x;
                        assert(nxt[k] == x);
                    }
                }
                if x.len() > 0 && nxt.contains(x) {
                    if x == l@ {
                        assert(views(out@)[before.len() as int] == x);
                    } else {
                        let j = choose|j: int| 0 <= j < nxt.len() && #[trigger] nxt[j] == x;
                        assert(pre[j] == x);
                        assert(pre.contains(x));
                        assert(before.contains(x));
                        let k = choose|k: int| 0 <= k < before.len() && #[trigger] before[k] == x;
                        assert(views(out@)[k] == x);
                    }
                }
            }
        } else {
            assert forall|x: Seq<char>| #[trigger] views(out@).contains(x) <==> (x.len() > 0
                && all.take(i + 1).contains(x)) by {
                if all.take(i + 1).contains(x) && x != l@ {
                    let j = choose|j: int| 0 <= j < nxt.len() && #[trigger] nxt[j] == x;
                    assert(pre[j] == x);
                }
                if all.take(i as int).contains(x) {
                    let j = choose|j: int| 0 <= j < pre.len() && #[trigger] pre[j] == x;
                    assert(nxt[j] == x);
                }
            }
        }
        i = i + 1;
    }
    assert(all.take(names.len() as int) =~= all);
    out
}

/// The per-client rate limit of one disk node.
#[derive(Debug, PartialEq)]
pub struct NodeRateLimit {
    pub node_uuid: String,
    pub speed_limit_kbs: u64,
    pub burst_speed_kbs: u64,
}

/// Whether a node streams from local disk (ASCII case ignored).
pub open spec fn is_disk_node(n: BackendNodeModel) -> bool {
    eq_ignore_case(n.backend_type@, "Disk"@)
}

/// The (uuid, speed limit, burst) of every disk node, in order. Only disk
/// nodes limit clients' bytes.
pub open spec fn disk_node_limits(nodes: Seq<BackendNodeModel>) -> Seq<(Seq<char>, u64, u64)>
    decreases nodes.len(),
{
    if nodes.len() == 0 {
        Seq::empty()
    } else {
        let rest = disk_node_limits(nodes.drop_last());
        let n = nodes.last();
        if is_disk_node(n) {
            rest.push((n.uuid@, n.client_speed_limit_kbs, n.client_burst_speed_kbs))
        } else {
            rest
        }
    }
}

pub open spec fn limit_views(v: Seq<NodeRateLimit>) -> Seq<(Seq<char>, u64, u64)> {
    v.map_values(|l: NodeRateLimit| (l.node_uuid@, l.speed_limit_kbs, l.burst_speed_kbs))
}

/// The rate limiters to create, one per disk node, in order (a later node
/// with the same uuid replaces an earlier one).
pub fn node_rate_limits(nodes: &Vec<BackendNode>) -> (r: Vec<NodeRateLimit>)
    ensures
        limit_views(r@) == disk_node_limits(node_views(nodes@)),
{
    let mut out: Vec<NodeRateLimit> = Vec::new();
    let mut i: usize = 0;
    proof {
        reveal_strlit("Disk");
    }
    while i < nodes.len()
        invariant
            i <= nodes.len(),
            limit_views(out@) == disk_node_limits(node_views(nodes@).take(i as int)),
        decreases nodes.len() - i,
    {
        let n = &nodes[i];
        assert(node_views(nodes@).take(i + 1).drop_last() =~= node_views(nodes@).take(i as int));
        assert(node_views(nodes@).take(i + 1).last() == n@);
        if eq_ignore_ascii_case(n.backend_type.as_str(), "Disk") {
            let ghost before = limit_views(out@);
            out.push(
                NodeRateLimit {
                    node_uuid: copy_str(n.uuid.as_str()),
                    speed_limit_kbs: n.client_speed_limit_kbs,
                    burst_speed_kbs: n.client_burst_speed_kbs,
                },
            );
            assert(limit_views(out@) =~= before.push(
                (n.uuid@, n.client_speed_limit_kbs, n.client_burst_speed_kbs),
            ));
        }
        i = i + 1;
    }
    assert(node_views(nodes@).take(nodes.len() as int) =~= node_views(nodes@));
    out
}

/// The capacity and time to live of each rate limiter: twice the cache
/// capacity of the memory mode, and its time to live.
pub fn rate_limiter_settings(memory_mode: &str) -> (r: (u64, u64))
    ensures
        r.0 == 2 * cache_settings_spec(memory_mode@).0,
        r.1 == cache_settings_spec(memory_mode@).1,
{
    let (capacity, ttl) = cache_settings(memory_mode);
    (capacity * 2, ttl)
}

/// The capacity and time to live of the local metadata cache: the memory
/// mode's capacity, kept for two hours.
pub fn local_metadata_cache_settings(memory_mode: &str) -> (r: (u64, u64))
    ensures
        r.0 == cache_settings_spec(memory_mode@).0,
        r.1 == 7200,
{
    let (capacity, _) = cache_settings(memory_mode);
    (capacity, 7200)
}

/// Whether `s` parses as a URI (`str::parse::<hyper::Uri>` succeeds).
pub uninterp spec fn uri_parses(s: Seq<char>) -> bool;

/// Calls `s.parse::<hyper::Uri>()` (`http::Uri`'s `FromStr`), which returns
/// a result and does not panic; the contract names whether it succeeds
/// `uri_parses(s)`, a function of the text alone.
#[verifier::external_body]
pub(crate) fn parses_as_uri(s: &str) -> (r: bool)
    ensures
        r == uri_parses(s@),
{
    match s.parse::<hyper::Uri>() {
        Ok(_) => true,
        Err(_) => false,
    }
}

/// The base URLs of the WebDAV nodes that parse as a URI, in order.
pub open spec fn webdav_base_urls(nodes: Seq<BackendNodeModel>) -> Seq<Seq<char>>
    decreases nodes.len(),
{
    if nodes.len() == 0 {
        Seq::empty()
    } else {
        let rest = webdav_base_urls(nodes.drop_last());
        let n = nodes.last();
        if eq_ignore_case(n.backend_type@, webdav_backend_type()) && uri_parses(n.base_url@) {
            rest.push(n.base_url@)
        } else {
            rest
        }
    }
}

/// The base URLs whose connections are warmed up at start: those of the
/// WebDAV nodes that parse as a URI, in order.
pub fn webdav_warmup_targets(nodes: &Vec<BackendNode>) -> (r: Vec<String>)
    ensures
        views(r@) == webdav_base_urls(node_views(nodes@)),
{
    let mut out: Vec<String> = Vec::new();
    let mut i: usize = 0;
    while i < nodes.len()
        invariant
            i <= nodes.len(),
            views(out@) == webdav_base_urls(node_views(nodes@).take(i as int)),
        decreases nodes.len() - i,
    {
        let n = &nodes[i];
        assert(node_views(nodes@).take(i + 1).drop_last() =~= node_views(nodes@).take(i as int));
        assert(node_views(nodes@).take(i + 1).last() == n@);
        if is_webdav_type(n.backend_type.as_str()) && parses_as_uri(n.base_url.as_str()) {
            let ghost before = views(out@);
            out.push(copy_str(n.base_url.as_str()));
            assert(views(out@) =~= before.push(n.base_url@));
        }
        i = i + 1;
    }
    assert(node_views(nodes@).take(nodes.len() as int) =~= node_views(nodes@));
    out
}

/// Whether a request lock is dropped from the lock table once its holder is
/// done: the table still holds this very lock and nobody else shares it (the
/// table and the holder are its only two owners).
pub fn should_remove_request_lock(same_lock: bool, owners: usize) -> (r: bool)
    ensures
        r == (same_lock && owners == 2),
{
    same_lock && owners == 2
}

} // verus!
