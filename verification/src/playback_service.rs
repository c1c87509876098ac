//! PlaybackInfo requests: the item id of a PlaybackInfo path, the cache keys
//! under which responses and item indexes are stored, and where an API token
//! is found in a request.
use vstd::prelude::*;
use vstd::relations::{sorted_by, total_ordering};

use crate::digest::{digest_of, hash_hex};
use crate::forms::{
    entry_views, form_pairs, form_serialized, json_object_entries, parse_form_pairs,
    parse_json_object, serialize_form_pairs, utf8_text,
};
use crate::playback::PlaybackInfo;
use crate::order::{lemma_pair_le_total_ordering, pair_le_fn, pair_views, sort_pairs};
use crate::text::{
    eq_ignore_ascii_case, eq_ignore_case, join2, lower, to_lower, trim, trim_str,
};

verus! {

/// The pairs a cache key keeps: names lower-cased (ASCII), and the credential
/// names `api_key` and `x-emby-token` left out.
pub open spec fn kept_pairs(pairs: Seq<(Seq<char>, Seq<char>)>) -> Seq<(Seq<char>, Seq<char>)>
    decreases pairs.len(),
{
    if pairs.len() == 0 {
        Seq::empty()
    } else {
        let rest = kept_pairs(pairs.drop_last());
        let key = lower(pairs.last().0);
        if is_credential_name(key) {
            rest
        } else {
            rest.push((key, pairs.last().1))
        }
    }
}

/// Whether a lower-cased query name is a credential.
pub open spec fn is_credential_name(key: Seq<char>) -> bool {
    key == "api_key"@ || key == "x-emby-token"@
}

/// The canonical form of a query: empty when absent or blank; otherwise its
/// kept pairs sorted by name then value, serialized again.
pub open spec fn canonical_query_spec(query: Option<Seq<char>>) -> Seq<char> {
    match query {
        None => Seq::empty(),
        Some(q) => if trim(q).len() == 0 {
            Seq::empty()
        } else {
            form_serialized(kept_pairs(form_pairs(trim(q))).sort_by(pair_le_fn()))
        },
    }
}

/// The response cache key of a PlaybackInfo request.
pub open spec fn response_cache_key_spec(item_id: Seq<char>, query: Option<Seq<char>>) -> Seq<char> {
    "playback:info:response:hash:"@ + digest_of(
        lower(trim(item_id)) + "|"@ + canonical_query_spec(query),
    )
}

/// The view of an optional string slice.
pub open spec fn opt_str_view(o: Option<&str>) -> Option<Seq<char>> {
    match o {
        Some(s) => Some(s@),
        None => None,
    }
}

/// Whether `key` (already lower-cased) is a credential name.
fn is_credential_key(key: &str) -> (r: bool)
    ensures
        r == is_credential_name(key@),
{
    let cs = crate::text::chars_of(key);
    let a = crate::text::chars_of("api_key");
    let b = crate::text::chars_of("x-emby-token");
    proof {
        reveal_strlit("api_key");
        reveal_strlit("x-emby-token");
    }
    seq_eq(&cs, &a) || seq_eq(&cs, &b)
}

/// Whether two character sequences are equal.
pub fn seq_eq(a: &Vec<char>, b: &Vec<char>) -> (r: bool)
    ensures
        r == (a@ == b@),
{
    if a.len() != b.len() {
        return false;
    }
    let mut i: usize = 0;
    while i < a.len()
        invariant
            i <= a.len() == b.len(),
            forall|k: int| 0 <= k < i ==> a@[k] == b@[k],
        decreases a.len() - i,
    {
        if a[i] != b[i] {
            return false;
        }
        i = i + 1;
    }
    assert(a@ =~= b@);
    true
}

/// The kept pairs of `pairs`.
fn keep_pairs(pairs: Vec<(String, String)>) -> (r: Vec<(String, String)>)
    ensures
        pair_views(r@) == kept_pairs(pair_views(pairs@)),
{
    let mut r: Vec<(String, String)> = Vec::new();
    let mut i: usize = 0;
    let ghost pv = pair_views(pairs@);
    while i < pairs.len()
        invariant
            i <= pairs.len(),
            pv == pair_views(pairs@),
            pair_views(r@) == kept_pairs(pv.take(i as int)),
        decreases pairs.len() - i,
    {
        assert(pv.take(i + 1).drop_last() =~= pv.take(i as int));
        assert(pv.take(i + 1).last() == (pairs@[i as int].0@, pairs@[i as int].1@));
        let key = to_lower(pairs[i].0.as_str());
        if !is_credential_key(key.as_str()) {
            let ghost old_r = pair_views(r@);
            r.push((key, pairs[i].1.clone()));
            assert(pair_views(r@) =~= old_r.push((lower(pv[i as int].0), pv[i as int].1)));
        }
        i = i + 1;
    }
    assert(pv.take(pairs.len() as int) =~= pv);
    r
}

/// The canonical form of a query (see `canonical_query_spec`).
pub fn canonical_query(query: Option<&str>) -> (r: String)
    ensures
        r@ == canonical_query_spec(opt_str_view(query)),
{
    match query {
        None => String::new(),
        Some(q) => {
            let t = trim_str(q);
            if t.as_str().is_empty() {
                return String::new();
            }
            let pairs = parse_form_pairs(t.as_str());
            let kept = keep_pairs(pairs);
            let ghost kv = pair_views(kept@);
            let sorted = sort_pairs(kept);
            proof {
                lemma_pair_le_total_ordering();
                kv.lemma_sort_by_ensures(pair_le_fn());
                vstd::seq_lib::lemma_sorted_unique(
                    pair_views(sorted@),
                    kv.sort_by(pair_le_fn()),
                    pair_le_fn(),
                );
            }
            serialize_form_pairs(&sorted)
        },
    }
}

/// The cache key of a PlaybackInfo response: a digest over the item id
/// (trimmed, ASCII lower-case) and the canonical query, after a fixed prefix.
pub fn response_cache_key(item_id: &str, query: Option<&str>) -> (r: String)
    ensures
        r@ == response_cache_key_spec(item_id@, opt_str_view(query)),
{
    let id = to_lower(trim_str(item_id).as_str());
    let a = join2(id.as_str(), "|");
    let normalized = join2(a.as_str(), canonical_query(query).as_str());
    let digest = hash_hex(normalized.as_str());
    join2("playback:info:response:hash:", digest.as_str())
}


proof fn lemma_kept_concat(a: Seq<(Seq<char>, Seq<char>)>, b: Seq<(Seq<char>, Seq<char>)>)
    ensures
        kept_pairs(a + b) == kept_pairs(a) + kept_pairs(b),
    decreases b.len(),
{
    if b.len() == 0 {
        assert(a + b =~= a);
        assert(kept_pairs(a) + kept_pairs(b) =~= kept_pairs(a));
    } else {
        lemma_kept_concat(a, b.drop_last());
        assert((a + b).drop_last() =~= a + b.drop_last());
        assert((a + b).last() == b.last());
        let key = lower(b.last().0);
        if !is_credential_name(key) {
            assert(kept_pairs(a) + kept_pairs(b.drop_last()).push((key, b.last().1)) =~= (
            kept_pairs(a) + kept_pairs(b.drop_last())).push((key, b.last().1)));
        }
    }
}

proof fn lemma_kept_multiset(s1: Seq<(Seq<char>, Seq<char>)>, s2: Seq<(Seq<char>, Seq<char>)>)
    requires
        s1.to_multiset() == s2.to_multiset(),
    ensures
        kept_pairs(s1).to_multiset() == kept_pairs(s2).to_multiset(),
    decreases s1.len(),
{
    broadcast use vstd::seq_lib::group_to_multiset_ensures;
    broadcast use vstd::multiset::group_multiset_axioms;

    if s1.len() == 0 {
        s2.to_multiset_ensures();
        assert(s2.len() == 0);
        assert(s1 =~= s2);
    } else {
        let x = s1.last();
        s1.drop_last().to_multiset_ensures();
        assert(s1 =~= s1.drop_last().push(x));
        assert(s1.to_multiset() == s1.drop_last().to_multiset().insert(x));
        s2.to_multiset_ensures();
        assert(s2.to_multiset().count(x) > 0);
        assert(s2.contains(x));
        let k = choose|k: int| 0 <= k < s2.len() && s2[k] == x;
        let s2r = s2.remove(k);
        assert(s2r.to_multiset() =~= s2.to_multiset().remove(x));
        assert(s1.drop_last().to_multiset() =~= s2r.to_multiset());
        lemma_kept_multiset(s1.drop_last(), s2r);
        let pre = s2.take(k);
        let post = s2.skip(k + 1);
        assert(s2 =~= pre + seq![x] + post);
        assert(s2r =~= pre + post);
        lemma_kept_concat(pre + seq![x], post);
        lemma_kept_concat(pre, seq![x]);
        lemma_kept_concat(pre, post);
        assert(seq![x].drop_last() =~= Seq::<(Seq<char>, Seq<char>)>::empty());
        let kx = kept_pairs(seq![x]);
        vstd::seq_lib::lemma_multiset_commutative(kept_pairs(pre) + kx, kept_pairs(post));
        vstd::seq_lib::lemma_multiset_commutative(kept_pairs(pre), kx);
        vstd::seq_lib::lemma_multiset_commutative(kept_pairs(pre), kept_pairs(post));
        assert(kept_pairs(s1) == kept_pairs(s1.drop_last()) + kx) by {
            lemma_kept_concat(s1.drop_last(), seq![x]);
            assert(s1.drop_last() + seq![x] =~= s1);
        }
        vstd::seq_lib::lemma_multiset_commutative(kept_pairs(s1.drop_last()), kx);
        assert(kept_pairs(s2).to_multiset() =~= kept_pairs(s2r).to_multiset().add(kx.to_multiset()));
    }
}

/// Whether a query name is dropped from a cache key: `api_key` or
/// `X-Emby-Token`, in any ASCII case.
pub open spec fn is_dropped_name(name: Seq<char>) -> bool {
    lower(name) == "api_key"@ || lower(name) == "x-emby-token"@
}

/// Each pair of `pairs` whose name is not dropped is kept, its name
/// lower-cased; each kept pair comes from such a pair.
#[verifier::spinoff_prover]
proof fn lemma_kept_pairs_members(pairs: Seq<(Seq<char>, Seq<char>)>)
    ensures
        forall|i: int|
            0 <= i < pairs.len() && !is_dropped_name(#[trigger] pairs[i].0) ==> kept_pairs(
                pairs,
            ).contains((lower(pairs[i].0), pairs[i].1)),
        forall|j: int|
            0 <= j < kept_pairs(pairs).len() ==> exists|i: int|
                0 <= i < pairs.len() && !is_dropped_name(pairs[i].0) && #[trigger] kept_pairs(
                    pairs,
                )[j] == (lower(pairs[i].0), pairs[i].1),
    decreases pairs.len(),
{
    if pairs.len() > 0 {
        let init = pairs.drop_last();
        lemma_kept_pairs_members(init);
        let rest = kept_pairs(init);
        let key = lower(pairs.last().0);
        let n = pairs.len() - 1;
        assert forall|i: int|
            0 <= i < pairs.len() && !is_dropped_name(#[trigger] pairs[i].0) implies kept_pairs(
                pairs,
            ).contains((lower(pairs[i].0), pairs[i].1)) by {
            if i < n {
                assert(init[i] == pairs[i]);
                let w = choose|k: int| 0 <= k < rest.len() && rest[k] == (lower(init[i].0), init[i].1);
                if !is_credential_name(key) {
                    assert(kept_pairs(pairs)[w] == rest[w]);
                }
            } else {
                assert(kept_pairs(pairs)[rest.len() as int] == (key, pairs.last().1));
            }
        }
        assert forall|j: int| 0 <= j < kept_pairs(pairs).len() implies exists|i: int|
            0 <= i < pairs.len() && !is_dropped_name(pairs[i].0) && #[trigger] kept_pairs(
                pairs,
            )[j] == (lower(pairs[i].0), pairs[i].1) by {
            if j < rest.len() {
                assert(kept_pairs(pairs)[j] == rest[j]);
                let i = choose|i: int|
                    0 <= i < init.len() && !is_dropped_name(init[i].0) && #[trigger] rest[j] == (
                    lower(init[i].0), init[i].1);
                assert(pairs[i] == init[i]);
            } else {
                assert(kept_pairs(pairs)[j] == (key, pairs[n].1));
            }
        }
    }
}

/// What a canonical query holds: it is the serialization of a list of pairs
/// that holds every parsed pair whose name is not `api_key` or
/// `X-Emby-Token` (any ASCII case), name lower-cased, and nothing but such
/// pairs. So no other parameter, `MediaSourceId` among them, is ever left
/// out of a cache key.
pub proof fn lemma_canonical_query_keeps_parameters(q: Seq<char>)
    requires
        trim(q).len() > 0,
    ensures
        exists|s: Seq<(Seq<char>, Seq<char>)>|
            {
                &&& canonical_query_spec(Some(q)) == form_serialized(s)
                &&& forall|i: int|
                    0 <= i < form_pairs(trim(q)).len() && !is_dropped_name(
                        #[trigger] form_pairs(trim(q))[i].0,
                    ) ==> s.contains((lower(form_pairs(trim(q))[i].0), form_pairs(trim(q))[i].1))
                &&& forall|j: int|
                    0 <= j < s.len() ==> exists|i: int|
                        0 <= i < form_pairs(trim(q)).len() && !is_dropped_name(
                            form_pairs(trim(q))[i].0,
                        ) && #[trigger] s[j] == (
                            lower(form_pairs(trim(q))[i].0),
                            form_pairs(trim(q))[i].1,
                        )
            },
{
    broadcast use vstd::seq_lib::group_to_multiset_ensures;

    let p = form_pairs(trim(q));
    let k = kept_pairs(p);
    let s = k.sort_by(pair_le_fn());
    lemma_kept_pairs_members(p);
    lemma_pair_le_total_ordering();
    k.lemma_sort_by_ensures(pair_le_fn());
    assert forall|i: int| 0 <= i < p.len() && !is_dropped_name(#[trigger] p[i].0) implies s.contains(
        (lower(p[i].0), p[i].1),
    ) by {
        assert(k.contains((lower(p[i].0), p[i].1)));
        assert(k.to_multiset().count((lower(p[i].0), p[i].1)) > 0);
    }
    assert forall|j: int| 0 <= j < s.len() implies exists|i: int|
        0 <= i < p.len() && !is_dropped_name(p[i].0) && #[trigger] s[j] == (lower(p[i].0), p[i].1) by {
        assert(s.contains(s[j]));
        assert(k.contains(s[j]));
        let m = choose|m: int| 0 <= m < k.len() && k[m] == s[j];
        assert(exists|i: int|
            0 <= i < p.len() && !is_dropped_name(p[i].0) && #[trigger] k[m] == (lower(p[i].0), p[i].1));
    }
    assert(canonical_query_spec(Some(q)) == form_serialized(s));
}

/// Queries whose kept pairs differ (as multisets) have different canonical
/// queries: the canonical form loses no parameter but the credentials.
pub proof fn lemma_canonical_query_distinguishes(q1: Seq<char>, q2: Seq<char>)
    requires
        trim(q1).len() > 0,
        trim(q2).len() > 0,
        kept_pairs(form_pairs(trim(q1))).to_multiset() != kept_pairs(
            form_pairs(trim(q2)),
        ).to_multiset(),
    ensures
        canonical_query_spec(Some(q1)) != canonical_query_spec(Some(q2)),
{
    let k1 = kept_pairs(form_pairs(trim(q1)));
    let k2 = kept_pairs(form_pairs(trim(q2)));
    lemma_pair_le_total_ordering();
    k1.lemma_sort_by_ensures(pair_le_fn());
    k2.lemma_sort_by_ensures(pair_le_fn());
    crate::forms::lemma_form_serialized_injective(k1.sort_by(pair_le_fn()), k2.sort_by(pair_le_fn()));
}

/// Two queries with the same canonical query carry the same parameters: each
/// parameter of the first whose name is not `api_key` or `X-Emby-Token` (any
/// ASCII case) is, with its name lower-cased, a parameter of the second. So
/// requests that differ in, say, `MediaSourceId` never share a canonical
/// query.
pub proof fn lemma_same_canonical_query_same_parameters(q1: Seq<char>, q2: Seq<char>, i: int)
    requires
        trim(q1).len() > 0,
        trim(q2).len() > 0,
        0 <= i < form_pairs(trim(q1)).len(),
        !is_dropped_name(form_pairs(trim(q1))[i].0),
        canonical_query_spec(Some(q1)) == canonical_query_spec(Some(q2)),
    ensures
        exists|j: int|
            0 <= j < form_pairs(trim(q2)).len() && !is_dropped_name(form_pairs(trim(q2))[j].0) && (
            lower(form_pairs(trim(q1))[i].0), form_pairs(trim(q1))[i].1) == (
                lower(#[trigger] form_pairs(trim(q2))[j].0),
                form_pairs(trim(q2))[j].1,
            ),
{
    broadcast use vstd::seq_lib::group_to_multiset_ensures;

    let p1 = form_pairs(trim(q1));
    let p2 = form_pairs(trim(q2));
    let k1 = kept_pairs(p1);
    let k2 = kept_pairs(p2);
    lemma_pair_le_total_ordering();
    k1.lemma_sort_by_ensures(pair_le_fn());
    k2.lemma_sort_by_ensures(pair_le_fn());
    crate::forms::lemma_form_serialized_injective(k1.sort_by(pair_le_fn()), k2.sort_by(pair_le_fn()));
    lemma_kept_pairs_members(p1);
    lemma_kept_pairs_members(p2);
    let x = (lower(p1[i].0), p1[i].1);
    assert(k1.contains(x));
    assert(k1.to_multiset().count(x) > 0);
    assert(k1.sort_by(pair_le_fn()).contains(x));
    assert(k2.to_multiset().count(x) > 0);
    assert(k2.contains(x));
    let m = choose|m: int| 0 <= m < k2.len() && k2[m] == x;
    assert(exists|j: int|
        0 <= j < p2.len() && !is_dropped_name(p2[j].0) && #[trigger] k2[m] == (lower(p2[j].0), p2[j].1));
}

/// Two queries whose parsed pairs are the same up to order give the same
/// canonical query.
pub proof fn lemma_canonical_query_order_independent(q1: Seq<char>, q2: Seq<char>)
    requires
        trim(q1).len() > 0,
        trim(q2).len() > 0,
        form_pairs(trim(q1)).to_multiset() == form_pairs(trim(q2)).to_multiset(),
    ensures
        canonical_query_spec(Some(q1)) == canonical_query_spec(Some(q2)),
{
    let k1 = kept_pairs(form_pairs(trim(q1)));
    let k2 = kept_pairs(form_pairs(trim(q2)));
    lemma_kept_multiset(form_pairs(trim(q1)), form_pairs(trim(q2)));
    lemma_pair_le_total_ordering();
    k1.lemma_sort_by_ensures(pair_le_fn());
    k2.lemma_sort_by_ensures(pair_le_fn());
    vstd::seq_lib::lemma_sorted_unique(k1.sort_by(pair_le_fn()), k2.sort_by(pair_le_fn()), pair_le_fn());
}

/// PlaybackInfo requests for the same item whose query parameters differ
/// only in order share one response cache entry.
pub proof fn lemma_response_key_order_independent(item_id: Seq<char>, q1: Seq<char>, q2: Seq<char>)
    requires
        trim(q1).len() > 0,
        trim(q2).len() > 0,
        form_pairs(trim(q1)).to_multiset() == form_pairs(trim(q2)).to_multiset(),
    ensures
        response_cache_key_spec(item_id, Some(q1)) == response_cache_key_spec(item_id, Some(q2)),
{
    lemma_canonical_query_order_independent(q1, q2);
}

/// Item ids that differ only in ASCII case and surrounding whitespace share
/// one response cache entry.
pub proof fn lemma_response_key_item_id_case_insensitive(
    a: Seq<char>,
    b: Seq<char>,
    query: Option<Seq<char>>,
)
    requires
        eq_ignore_case(trim(a), trim(b)),
    ensures
        response_cache_key_spec(a, query) == response_cache_key_spec(b, query),
{
}

/// Credential parameters (`api_key`, `X-Emby-Token`, any ASCII case) appended
/// to a query do not change its response cache key.
pub proof fn lemma_response_key_ignores_credentials(
    item_id: Seq<char>,
    q1: Seq<char>,
    q2: Seq<char>,
    extra: Seq<(Seq<char>, Seq<char>)>,
)
    requires
        trim(q1).len() > 0,
        trim(q2).len() > 0,
        form_pairs(trim(q1)) == form_pairs(trim(q2)) + extra,
        forall|i: int| 0 <= i < extra.len() ==> is_credential_name(lower(#[trigger] extra[i].0)),
    ensures
        response_cache_key_spec(item_id, Some(q1)) == response_cache_key_spec(item_id, Some(q2)),
{
    lemma_kept_concat(form_pairs(trim(q2)), extra);
    lemma_kept_all_credentials(extra);
    assert(kept_pairs(form_pairs(trim(q2))) + kept_pairs(extra) =~= kept_pairs(form_pairs(trim(q2))));
}

proof fn lemma_kept_all_credentials(extra: Seq<(Seq<char>, Seq<char>)>)
    requires
        forall|i: int| 0 <= i < extra.len() ==> is_credential_name(lower(#[trigger] extra[i].0)),
    ensures
        kept_pairs(extra).len() == 0,
    decreases extra.len(),
{
    if extra.len() > 0 {
        assert(is_credential_name(lower(extra[extra.len() - 1].0)));
        lemma_kept_all_credentials(extra.drop_last());
    }
}


/// The HTTP method of an upstream request.
#[derive(Clone, Copy, Debug, PartialEq, Eq, Structural)]
pub enum HttpMethod {
    Get,
    Post,
    Put,
    Delete,
    Head,
    Options,
    Patch,
}

/// A request to fetch PlaybackInfo from Emby. `media_source_id` may be
/// empty: Emby then answers with every media source of the item.
#[derive(Debug, PartialEq)]
pub struct PlaybackInfoRequest {
    pub item_id: String,
    pub media_source_id: String,
    pub method: HttpMethod,
    pub body: Option<Vec<u8>>,
    pub content_type: Option<String>,
}

impl PlaybackInfoRequest {
    pub fn new(
        item_id: &str,
        media_source_id: &str,
        method: HttpMethod,
        body: Option<Vec<u8>>,
        content_type: Option<String>,
    ) -> (r: Self)
        ensures
            r.item_id@ == item_id@,
            r.media_source_id@ == media_source_id@,
            r.method == method,
            r.body == body,
            r.content_type == content_type,
    {
        PlaybackInfoRequest {
            item_id: crate::text::copy_str(item_id),
            media_source_id: crate::text::copy_str(media_source_id),
            method,
            body,
            content_type,
        }
    }

    /// The item id of a PlaybackInfo path such as
    /// `/emby/Items/{item_id}/PlaybackInfo` (any prefix before `Items`).
    pub fn item_id_from_path(path: &str) -> (r: Option<String>)
        ensures
            match r {
                Some(id) => exists|i: int| #[trigger]
                    playback_window(path_segments(path@), i) && first_playback_window(
                        path_segments(path@),
                        i,
                    ) && id@ == path_segments(path@)[i + 1],
                None => forall|i: int| !#[trigger] playback_window(path_segments(path@), i),
            },
    {
        let seps = vec!['/'];
        let pieces = crate::text::split_by(path, &seps);
        assert(seps@ =~= seq!['/']);
        let mut segs: Vec<String> = Vec::new();
        let mut k: usize = 0;
        let ghost pv = crate::config::views(pieces@);
        while k < pieces.len()
            invariant
                k <= pieces.len(),
                pv == crate::config::views(pieces@),
                pv == crate::text::split_on(path@, seq!['/']),
                crate::config::views(segs@) == nonempty_pieces(pv.take(k as int)),
            decreases pieces.len() - k,
        {
            assert(pv.take(k + 1).drop_last() =~= pv.take(k as int));
            if !pieces[k].as_str().is_empty() {
                let ghost old_s = crate::config::views(segs@);
                segs.push(pieces[k].clone());
                assert(crate::config::views(segs@) =~= old_s.push(pv[k as int]));
            }
            k = k + 1;
        }
        assert(pv.take(pieces.len() as int) =~= pv);
        let ghost sv = crate::config::views(segs@);
        assert(sv == path_segments(path@));
        let mut i: usize = 0;
        while segs.len() >= 3 && i < segs.len() - 2
            invariant
                sv == crate::config::views(segs@),
                sv == path_segments(path@),
                forall|m: int| 0 <= m < i ==> !#[trigger] playback_window(sv, m),
            decreases segs.len() - i,
        {
            let items = eq_ignore_ascii_case(segs[i].as_str(), "Items");
            let info = eq_ignore_ascii_case(segs[i + 2].as_str(), "PlaybackInfo");
            assert(sv[i as int] == segs@[i as int]@);
            assert(sv[i + 2] == segs@[i + 2]@);
            if items && info {
                assert(playback_window(sv, i as int));
                assert(first_playback_window(sv, i as int));
                assert(sv[i + 1] == segs@[i + 1]@);
                return Some(segs[i + 1].clone());
            }
            i = i + 1;
        }
        assert forall|m: int| !#[trigger] playback_window(sv, m) by {
            if 0 <= m < i {
            }
        }
        None
    }
}

/// The non-empty pieces, in order.
pub open spec fn nonempty_pieces(pieces: Seq<Seq<char>>) -> Seq<Seq<char>>
    decreases pieces.len(),
{
    if pieces.len() == 0 {
        Seq::empty()
    } else {
        let rest = nonempty_pieces(pieces.drop_last());
        if pieces.last().len() > 0 {
            rest.push(pieces.last())
        } else {
            rest
        }
    }
}

/// The non-empty `/`-separated segments of a path.
pub open spec fn path_segments(path: Seq<char>) -> Seq<Seq<char>> {
    nonempty_pieces(crate::text::split_on(path, seq!['/']))
}

/// Segments `i`, `i + 1`, `i + 2` read `Items/{id}/PlaybackInfo` (ASCII case
/// ignored in the two fixed names).
pub open spec fn playback_window(segs: Seq<Seq<char>>, i: int) -> bool {
    &&& 0 <= i
    &&& i + 2 < segs.len()
    &&& eq_ignore_case(segs[i], "Items"@)
    &&& eq_ignore_case(segs[i + 2], "PlaybackInfo"@)
}

/// `i` is the first such window.
pub open spec fn first_playback_window(segs: Seq<Seq<char>>, i: int) -> bool {
    forall|m: int| 0 <= m < i ==> !#[trigger] playback_window(segs, m)
}

/// Why a PlaybackInfo lookup failed.
#[derive(Debug, PartialEq)]
pub enum PlaybackInfoServiceError {
    InvalidItemId,
    EmptyApiToken,
    Upstream(String),
}

impl PlaybackInfoServiceError {
    /// The message of the error.
    pub fn message(&self) -> (r: String)
        ensures
            r@ == match self {
                PlaybackInfoServiceError::InvalidItemId => "invalid playback info item id"@,
                PlaybackInfoServiceError::EmptyApiToken => "empty playback info api token"@,
                PlaybackInfoServiceError::Upstream(e) => "playback info upstream: "@ + e@,
            },
    {
        match self {
            PlaybackInfoServiceError::InvalidItemId => crate::text::copy_str(
                "invalid playback info item id",
            ),
            PlaybackInfoServiceError::EmptyApiToken => crate::text::copy_str(
                "empty playback info api token",
            ),
            PlaybackInfoServiceError::Upstream(e) => join2(
                "playback info upstream: ",
                e.as_str(),
            ),
        }
    }
}

/// The item index cache key of an item id: fails on a blank id.
pub fn item_index_cache_key(item_id: &str) -> (r: Result<String, PlaybackInfoServiceError>)
    ensures
        trim(item_id@).len() == 0 <==> r is Err,
        r matches Err(e) ==> e is InvalidItemId,
        r matches Ok(k) ==> k@ == "playback:info:item_index:item_id:"@ + lower(trim(item_id@)),
{
    let t = trim_str(item_id);
    if t.as_str().is_empty() {
        return Err(PlaybackInfoServiceError::InvalidItemId);
    }
    let l = to_lower(t.as_str());
    Ok(join2("playback:info:item_index:item_id:", l.as_str()))
}

/// The API token a fetch by item id may use: the trimmed token when it is
/// present and not blank.
pub fn fetch_token(api_token: Option<&str>) -> (r: Result<String, PlaybackInfoServiceError>)
    ensures
        match api_token {
            Some(t) => if trim(t@).len() > 0 {
                r matches Ok(x) && x@ == trim(t@)
            } else {
                r matches Err(e) && e is EmptyApiToken
            },
            None => r matches Err(e) && e is EmptyApiToken,
        },
{
    match api_token {
        Some(t) => {
            let tt = trim_str(t);
            if tt.as_str().is_empty() {
                Err(PlaybackInfoServiceError::EmptyApiToken)
            } else {
                Ok(tt)
            }
        },
        None => Err(PlaybackInfoServiceError::EmptyApiToken),
    }
}

/// The upstream request a fetch by item id sends: a POST without body, with
/// the given media source id or an empty one.
pub fn item_fetch_request(item_id: &str, media_source_id: Option<&str>) -> (r: PlaybackInfoRequest)
    ensures
        r.item_id@ == item_id@,
        r.media_source_id@ == (match media_source_id {
            Some(m) => m@,
            None => Seq::empty(),
        }),
        r.method == HttpMethod::Post,
        r.body is None,
        r.content_type is None,
{
    let m = match media_source_id {
        Some(m) => m,
        None => "",
    };
    proof {
        reveal_strlit("");
    }
    PlaybackInfoRequest::new(item_id, m, HttpMethod::Post, None, None)
}

/// Whether a query, form or JSON name carries an API token: `api_key`,
/// `X-Emby-Token`, `Token` or `MediaBrowser Token`, ASCII case ignored.
pub open spec fn is_token_name(key: Seq<char>) -> bool {
    ||| eq_ignore_case(key, "api_key"@)
    ||| eq_ignore_case(key, "X-Emby-Token"@)
    ||| eq_ignore_case(key, "Token"@)
    ||| eq_ignore_case(key, "MediaBrowser Token"@)
}

/// Whether `key` names an API token.
pub fn is_api_token_key(key: &str) -> (r: bool)
    ensures
        r == is_token_name(key@),
{
    eq_ignore_ascii_case(key, "api_key") || eq_ignore_ascii_case(key, "X-Emby-Token")
        || eq_ignore_ascii_case(key, "Token") || eq_ignore_ascii_case(key, "MediaBrowser Token")
}

/// The value of the first pair whose name carries an API token.
pub open spec fn first_token_value(pairs: Seq<(Seq<char>, Seq<char>)>) -> Option<Seq<char>>
    decreases pairs.len(),
{
    if pairs.len() == 0 {
        None
    } else if is_token_name(pairs[0].0) {
        Some(pairs[0].1)
    } else {
        first_token_value(pairs.drop_first())
    }
}

/// The API token of a URL-encoded text (a query or a form body).
pub fn api_token_from_form(text: &str) -> (r: Option<String>)
    ensures
        opt_string_view(r) == first_token_value(form_pairs(text@)),
{
    let pairs = parse_form_pairs(text);
    let ghost pv = pair_views(pairs@);
    let mut i: usize = 0;
    assert(pv.skip(0) =~= pv);
    while i < pairs.len()
        invariant
            i <= pairs.len(),
            pv == pair_views(pairs@),
            pv == form_pairs(text@),
            first_token_value(pv) == first_token_value(pv.skip(i as int)),
        decreases pairs.len() - i,
    {
        assert(pv.skip(i as int)[0] == (pairs@[i as int].0@, pairs@[i as int].1@));
        if is_api_token_key(pairs[i].0.as_str()) {
            assert(first_token_value(pv.skip(i as int)) == Some(pv.skip(i as int)[0].1));
            return Some(pairs[i].1.clone());
        }
        assert(pv.skip(i as int).drop_first() =~= pv.skip(i + 1));
        i = i + 1;
    }
    assert(pv.skip(i as int).len() == 0);
    None
}

/// The view of an optional string.
pub open spec fn opt_string_view(o: Option<String>) -> Option<Seq<char>> {
    match o {
        Some(s) => Some(s@),
        None => None,
    }
}


/// The first JSON entry whose name carries an API token and whose value is a
/// non-blank string: that value, trimmed.
pub open spec fn first_json_token(entries: Seq<(Seq<char>, Option<Seq<char>>)>) -> Option<Seq<char>>
    decreases entries.len(),
{
    if entries.len() == 0 {
        None
    } else if is_token_name(entries[0].0) && entries[0].1 is Some && trim(entries[0].1->0).len() > 0 {
        Some(trim(entries[0].1->0))
    } else {
        first_json_token(entries.drop_first())
    }
}

/// The API token of a JSON body: none unless the body is a JSON object.
pub open spec fn json_token(text: Seq<char>) -> Option<Seq<char>> {
    match json_object_entries(text) {
        Some(es) => first_json_token(es),
        None => None,
    }
}

/// The API token carried by a JSON object body.
pub fn api_token_from_json(body: &str) -> (r: Option<String>)
    ensures
        opt_string_view(r) == json_token(body@),
{
    let entries = match parse_json_object(body) {
        Some(e) => e,
        None => return None,
    };
    let ghost ev = entry_views(entries@);
    let mut i: usize = 0;
    assert(ev.skip(0) =~= ev);
    while i < entries.len()
        invariant
            i <= entries.len(),
            ev == entry_views(entries@),
            json_object_entries(body@) == Some(ev),
            first_json_token(ev) == first_json_token(ev.skip(i as int)),
        decreases entries.len() - i,
    {
        let ghost e = ev.skip(i as int)[0];
        assert(e.0 == entries@[i as int].0@);
        if is_api_token_key(entries[i].0.as_str()) {
            match &entries[i].1 {
                Some(v) => {
                    assert(e.1 == Some(v@));
                    let t = trim_str(v.as_str());
                    if !t.as_str().is_empty() {
                        return Some(t);
                    }
                },
                None => {
                    assert(e.1 is None);
                },
            }
        }
        assert(ev.skip(i as int).drop_first() =~= ev.skip(i + 1));
        i = i + 1;
    }
    assert(ev.skip(i as int).len() == 0);
    None
}

/// The media type of a content type: the trimmed part before any `;`; none
/// when the content type is absent or blank.
pub open spec fn media_type_spec(content_type: Option<Seq<char>>) -> Option<Seq<char>> {
    match content_type {
        Some(c) => if trim(c).len() == 0 {
            None
        } else {
            Some(trim(crate::text::first_piece(trim(c), seq![';'])))
        },
        None => None,
    }
}

/// The media type of an optional content type header value.
pub fn normalized_body_content_type(content_type: Option<&str>) -> (r: Option<String>)
    ensures
        opt_string_view(r) == media_type_spec(opt_str_view(content_type)),
{
    match content_type {
        Some(c) => {
            let t = trim_str(c);
            if t.as_str().is_empty() {
                None
            } else {
                let seps = vec![';'];
                assert(seps@ =~= seq![';']);
                let first = crate::text::first_piece_of(t.as_str(), &seps);
                Some(trim_str(first.as_str()))
            }
        },
        None => None,
    }
}

/// The API token of a request body: read as JSON, as a form, or (for
/// `text/plain` or no content type) as JSON and then as a form; none for a
/// missing, non-UTF-8 or blank body or another content type.
pub open spec fn body_token(body: Option<Seq<u8>>, content_type: Option<Seq<char>>) -> Option<Seq<char>> {
    match body {
        None => None,
        Some(b) => if !vstd::utf8::valid_utf8(b) {
            None
        } else {
            let t = trim(vstd::utf8::decode_utf8(b));
            if t.len() == 0 {
                None
            } else {
                match media_type_spec(content_type) {
                    Some(m) => if m == "application/json"@ {
                        json_token(t)
                    } else if m == "application/x-www-form-urlencoded"@ {
                        first_token_value(form_pairs(t))
                    } else if m == "text/plain"@ {
                        if json_token(t) is Some { json_token(t) } else { first_token_value(form_pairs(t)) }
                    } else {
                        None
                    },
                    None => if json_token(t) is Some { json_token(t) } else { first_token_value(form_pairs(t)) },
                }
            }
        },
    }
}

/// The view of an optional byte slice.
pub open spec fn opt_bytes_view(o: Option<&[u8]>) -> Option<Seq<u8>> {
    match o {
        Some(b) => Some(b@),
        None => None,
    }
}

/// Whether two strings are equal.
pub fn str_eq(a: &str, b: &str) -> (r: bool)
    ensures
        r == (a@ == b@),
{
    seq_eq(&crate::text::chars_of(a), &crate::text::chars_of(b))
}

/// The API token carried by a request body.
pub fn api_token_from_body(body: Option<&[u8]>, content_type: Option<&str>) -> (r: Option<String>)
    ensures
        opt_string_view(r) == body_token(opt_bytes_view(body), opt_str_view(content_type)),
{
    let b = match body {
        Some(b) => b,
        None => return None,
    };
    let text = match utf8_text(b) {
        Some(t) => t,
        None => return None,
    };
    let t = trim_str(text);
    if t.as_str().is_empty() {
        return None;
    }
    match normalized_body_content_type(content_type) {
        Some(m) => {
            if str_eq(m.as_str(), "application/json") {
                api_token_from_json(t.as_str())
            } else if str_eq(m.as_str(), "application/x-www-form-urlencoded") {
                api_token_from_form(t.as_str())
            } else if str_eq(m.as_str(), "text/plain") {
                match api_token_from_json(t.as_str()) {
                    Some(x) => Some(x),
                    None => api_token_from_form(t.as_str()),
                }
            } else {
                None
            }
        },
        None => match api_token_from_json(t.as_str()) {
            Some(x) => Some(x),
            None => api_token_from_form(t.as_str()),
        },
    }
}


/// The request headers that carry credentials: the values of `X-Emby-Token`,
/// `x-emby-authorization` and `DeviceId` when present and readable as text.
#[derive(Debug, PartialEq)]
pub struct RequestHeaders {
    pub x_emby_token: Option<String>,
    pub x_emby_authorization: Option<String>,
    pub device_id: Option<String>,
}

/// The API token of the headers: `X-Emby-Token`, else the `Token` parameter
/// of `x-emby-authorization`.
pub open spec fn header_token(h: RequestHeaders) -> Option<Seq<char>> {
    match h.x_emby_token {
        Some(t) => Some(t@),
        None => match h.x_emby_authorization {
            Some(a) => crate::auth_header::auth_param(a@, "Token"@),
            None => None,
        },
    }
}

/// The API token of a request's headers and query: the query first.
pub open spec fn headers_query_token(h: RequestHeaders, query: Option<Seq<char>>) -> Option<Seq<char>> {
    let from_query = match query {
        Some(q) => first_token_value(form_pairs(q)),
        None => None,
    };
    if from_query is Some {
        from_query
    } else {
        header_token(h)
    }
}

/// The API token of the headers.
pub fn api_token_from_headers(headers: &RequestHeaders) -> (r: Option<String>)
    ensures
        opt_string_view(r) == header_token(*headers),
{
    match &headers.x_emby_token {
        Some(t) => Some(t.clone()),
        None => match &headers.x_emby_authorization {
            Some(a) => crate::auth_header::authorization_param(a.as_str(), "Token"),
            None => None,
        },
    }
}

/// The API token of a request's query, else of its headers.
pub fn api_token_from_headers_and_query(headers: &RequestHeaders, query: Option<&str>) -> (r: Option<
    String,
>)
    ensures
        opt_string_view(r) == headers_query_token(*headers, opt_str_view(query)),
{
    let from_query = match query {
        Some(q) => api_token_from_form(q),
        None => None,
    };
    match from_query {
        Some(t) => Some(t),
        None => api_token_from_headers(headers),
    }
}

/// The API token of a request's query, else its headers, else its body.
pub fn api_token_from_headers_query_and_body(
    headers: &RequestHeaders,
    query: Option<&str>,
    body: Option<&[u8]>,
    content_type: Option<&str>,
) -> (r: Option<String>)
    ensures
        opt_string_view(r) == (if headers_query_token(*headers, opt_str_view(query)) is Some {
            headers_query_token(*headers, opt_str_view(query))
        } else {
            body_token(opt_bytes_view(body), opt_str_view(content_type))
        }),
{
    match api_token_from_headers_and_query(headers, query) {
        Some(t) => Some(t),
        None => api_token_from_body(body, content_type),
    }
}

/// What loading the PlaybackInfo of an item by its id does next (the item
/// index is looked up without and then under a per-key lock, and Emby is
/// asked only when both lookups miss).
#[derive(Debug, PartialEq)]
pub enum ItemIndexStep {
    /// Loading failed.
    Failed(PlaybackInfoServiceError),
    /// The index held the item's PlaybackInfo.
    Found(PlaybackInfo),
    /// Look the item index up without the lock.
    LookupIndex { key: String },
    /// Take the per-key lock and look again.
    LockAndLookup { key: String },
    /// Still missing under the lock: send `request` to Emby with `token`.
    Fetch { key: String, request: PlaybackInfoRequest, token: String },
    /// Store `info` in the index under `key` and return it.
    StoreAndReturn { key: String, info: PlaybackInfo },
}

/// The first step: a blank item id fails; any other is looked up by its
/// index key.
pub fn item_index_start(item_id: &str) -> (r: ItemIndexStep)
    ensures
        trim(item_id@).len() == 0 ==> (r matches ItemIndexStep::Failed(e) && e is InvalidItemId),
        trim(item_id@).len() > 0 ==> (r matches ItemIndexStep::LookupIndex { key } && key@
            == "playback:info:item_index:item_id:"@ + lower(trim(item_id@))),
{
    match item_index_cache_key(item_id) {
        Ok(key) => ItemIndexStep::LookupIndex { key },
        Err(e) => ItemIndexStep::Failed(e),
    }
}

/// After an index lookup: a hit is returned; a first miss takes the lock
/// and looks again; a miss under the lock needs a non-blank token and then
/// asks Emby with a POST for every media source of the item.
pub fn item_index_after_lookup(
    key: String,
    locked: bool,
    cached: Option<PlaybackInfo>,
    item_id: &str,
    media_source_id: Option<&str>,
    api_token: Option<&str>,
) -> (r: ItemIndexStep)
    ensures
        cached matches Some(p) ==> r == ItemIndexStep::Found(p),
        cached is None && !locked ==> r == (ItemIndexStep::LockAndLookup { key }),
        cached is None && locked ==> match api_token {
            Some(t) if trim(t@).len() > 0 => r matches ItemIndexStep::Fetch { key: k, request, token }
                && k == key && token@ == trim(t@) && request.item_id@ == item_id@
                && request.media_source_id@ == (match media_source_id {
                Some(m) => m@,
                None => Seq::empty(),
            }) && request.method == HttpMethod::Post && request.body is None
                && request.content_type is None,
            _ => r matches ItemIndexStep::Failed(e) && e is EmptyApiToken,
        },
{
    match cached {
        Some(p) => ItemIndexStep::Found(p),
        None => {
            if !locked {
                return ItemIndexStep::LockAndLookup { key };
            }
            match fetch_token(api_token) {
                Err(e) => ItemIndexStep::Failed(e),
                Ok(token) => {
                    let request = item_fetch_request(item_id, media_source_id);
                    ItemIndexStep::Fetch { key, request, token }
                },
            }
        },
    }
}

/// After Emby answered: its error is returned; a PlaybackInfo is stored in
/// the index and returned.
pub fn item_index_after_fetch(key: String, fetched: Result<PlaybackInfo, PlaybackInfoServiceError>) -> (r: ItemIndexStep)
    ensures
        fetched matches Err(e) ==> r == ItemIndexStep::Failed(e),
        fetched matches Ok(info) ==> r == (ItemIndexStep::StoreAndReturn { key, info }),
{
    match fetched {
        Err(e) => ItemIndexStep::Failed(e),
        Ok(info) => ItemIndexStep::StoreAndReturn { key, info },
    }
}

/// What storing an upstream PlaybackInfo response does first.
#[derive(Debug, PartialEq)]
pub enum ResponseStoreStep {
    /// The body is not UTF-8: nothing is cached and nothing is indexed.
    StoreNothing,
    /// Cache `text` under `key`, then read the body as a PlaybackInfo to
    /// index its media sources.
    StoreTextThenParse { key: String, text: String },
}

/// The first step of storing a response: a UTF-8 body is cached verbatim
/// under the response key; any other body is neither cached nor indexed.
pub fn response_store_start(cache_key: String, body: &[u8]) -> (r: ResponseStoreStep)
    ensures
        !vstd::utf8::valid_utf8(body@) ==> r == ResponseStoreStep::StoreNothing,
        vstd::utf8::valid_utf8(body@) ==> (r matches ResponseStoreStep::StoreTextThenParse { key, text }
            && key == cache_key && text@ == vstd::utf8::decode_utf8(body@)),
{
    match crate::forms::utf8_text(body) {
        Some(t) => ResponseStoreStep::StoreTextThenParse { key: cache_key, text: crate::text::copy_str(t) },
        None => ResponseStoreStep::StoreNothing,
    }
}

/// What storing does once the body has been read as a PlaybackInfo (or
/// could not be).
#[derive(Debug, PartialEq)]
pub enum IndexStoreStep {
    /// Nothing more is stored.
    Skip,
    /// Store `info` in the item index under `key`.
    StoreIndex { key: String, info: PlaybackInfo },
}

/// The second step: a parsed PlaybackInfo is indexed under the item's index
/// key; an unparsed body or a blank item id indexes nothing.
pub fn response_store_after_parse(item_id: &str, parsed: Option<PlaybackInfo>) -> (r: IndexStoreStep)
    ensures
        parsed is None ==> r == IndexStoreStep::Skip,
        parsed is Some && trim(item_id@).len() == 0 ==> r == IndexStoreStep::Skip,
        parsed is Some && trim(item_id@).len() > 0 ==> (r matches IndexStoreStep::StoreIndex {
            key,
            info: i,
        } && i == parsed->0 && key@ == "playback:info:item_index:item_id:"@ + lower(trim(item_id@))),
{
    match parsed {
        None => IndexStoreStep::Skip,
        Some(info) => match item_index_cache_key(item_id) {
            Ok(key) => IndexStoreStep::StoreIndex { key, info },
            Err(_) => IndexStoreStep::Skip,
        },
    }
}

} // verus!
