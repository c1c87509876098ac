//! Lexicographic order on texts and on (name, value) pairs, and a verified
//! insertion sort by that order.
use vstd::prelude::*;
use vstd::relations::{sorted_by, total_ordering};

use crate::text::chars_of;

verus! {

/// `a` comes before or equals `b`, character by character (code point order,
/// which is also the byte order of their UTF-8 encodings).
pub open spec fn text_le(a: Seq<char>, b: Seq<char>) -> bool
    decreases a.len(),
{
    if a.len() == 0 {
        true
    } else if b.len() == 0 {
        false
    } else if a[0] != b[0] {
        (a[0] as u32) < (b[0] as u32)
    } else {
        text_le(a.drop_first(), b.drop_first())
    }
}

/// Order on (name, value) pairs: by name, then by value.
pub open spec fn pair_le(p: (Seq<char>, Seq<char>), q: (Seq<char>, Seq<char>)) -> bool {
    if p.0 != q.0 {
        text_le(p.0, q.0)
    } else {
        text_le(p.1, q.1)
    }
}

pub open spec fn pair_le_fn() -> spec_fn((Seq<char>, Seq<char>), (Seq<char>, Seq<char>)) -> bool {
    |p: (Seq<char>, Seq<char>), q: (Seq<char>, Seq<char>)| pair_le(p, q)
}

pub proof fn lemma_text_le_reflexive(a: Seq<char>)
    ensures
        text_le(a, a),
    decreases a.len(),
{
    if a.len() > 0 {
        lemma_text_le_reflexive(a.drop_first());
    }
}

pub proof fn lemma_text_le_antisymmetric(a: Seq<char>, b: Seq<char>)
    requires
        text_le(a, b),
        text_le(b, a),
    ensures
        a == b,
    decreases a.len(),
{
    if a.len() > 0 && b.len() > 0 {
        if a[0] == b[0] {
            lemma_text_le_antisymmetric(a.drop_first(), b.drop_first());
            assert(a =~= seq![a[0]] + a.drop_first());
            assert(b =~= seq![b[0]] + b.drop_first());
        } else {
            assert((a[0] as u32) != (b[0] as u32));
        }
    }
}

pub proof fn lemma_text_le_transitive(a: Seq<char>, b: Seq<char>, c: Seq<char>)
    requires
        text_le(a, b),
        text_le(b, c),
    ensures
        text_le(a, c),
    decreases a.len(),
{
    if a.len() > 0 && b.len() > 0 && c.len() > 0 {
        if a[0] == b[0] && b[0] == c[0] {
            lemma_text_le_transitive(a.drop_first(), b.drop_first(), c.drop_first());
        } else if a[0] == c[0] {
            assert((a[0] as u32) == (c[0] as u32));
        }
    }
}

pub proof fn lemma_text_le_total(a: Seq<char>, b: Seq<char>)
    ensures
        text_le(a, b) || text_le(b, a),
    decreases a.len(),
{
    if a.len() > 0 && b.len() > 0 {
        if a[0] == b[0] {
            lemma_text_le_total(a.drop_first(), b.drop_first());
        } else {
            assert((a[0] as u32) != (b[0] as u32)) by {
                lemma_char_u32_injective(a[0], b[0]);
            }
        }
    }
}

pub proof fn lemma_char_u32_injective(x: char, y: char)
    requires
        x != y,
    ensures
        (x as u32) != (y as u32),
{
    assert(x as int != y as int);
}

/// `pair_le` is a total order.
pub proof fn lemma_pair_le_total_ordering()
    ensures
        total_ordering(pair_le_fn()),
{
    let f = pair_le_fn();
    assert forall|x: (Seq<char>, Seq<char>)| #[trigger] f(x, x) by {
        lemma_text_le_reflexive(x.1);
    }
    assert forall|x: (Seq<char>, Seq<char>), y: (Seq<char>, Seq<char>)|
        #[trigger] f(x, y) && #[trigger] f(y, x) implies x == y by {
        if x.0 != y.0 {
            lemma_text_le_antisymmetric(x.0, y.0);
        } else {
            lemma_text_le_antisymmetric(x.1, y.1);
        }
    }
    assert forall|x: (Seq<char>, Seq<char>), y: (Seq<char>, Seq<char>), z: (Seq<char>, Seq<char>)|
        #[trigger] f(x, y) && #[trigger] f(y, z) implies f(x, z) by {
        if x.0 != y.0 && y.0 != z.0 {
            lemma_text_le_transitive(x.0, y.0, z.0);
            if x.0 == z.0 {
                lemma_text_le_antisymmetric(x.0, y.0);
            }
        } else if x.0 == y.0 && y.0 == z.0 {
            lemma_text_le_transitive(x.1, y.1, z.1);
        }
    }
    assert forall|x: (Seq<char>, Seq<char>), y: (Seq<char>, Seq<char>)|
        #[trigger] f(x, y) || #[trigger] f(y, x) by {
        lemma_text_le_total(x.0, y.0);
        lemma_text_le_total(x.1, y.1);
    }
}

/// Whether `a` comes before or equals `b`.
pub fn chars_le(a: &Vec<char>, b: &Vec<char>) -> (r: bool)
    ensures
        r == text_le(a@, b@),
{
    let mut i: usize = 0;
    assert(a@.skip(0) =~= a@);
    assert(b@.skip(0) =~= b@);
    while i < a.len() && i < b.len() && a[i] == b[i]
        invariant
            i <= a.len(),
            i <= b.len(),
            text_le(a@, b@) == text_le(a@.skip(i as int), b@.skip(i as int)),
        decreases a.len() - i,
    {
        assert(a@.skip(i as int).drop_first() =~= a@.skip(i + 1));
        assert(b@.skip(i as int).drop_first() =~= b@.skip(i + 1));
        i = i + 1;
    }
    if i == a.len() {
        true
    } else if i == b.len() {
        false
    } else {
        (a[i] as u32) < (b[i] as u32)
    }
}

/// Whether the pair `p` comes before or equals `q`.
pub fn pair_le_exec(p: &(String, String), q: &(String, String)) -> (r: bool)
    ensures
        r == pair_le((p.0@, p.1@), (q.0@, q.1@)),
{
    let p0 = chars_of(p.0.as_str());
    let q0 = chars_of(q.0.as_str());
    let le0 = chars_le(&p0, &q0);
    let ge0 = chars_le(&q0, &p0);
    if le0 && ge0 {
        proof {
            lemma_text_le_antisymmetric(p.0@, q.0@);
        }
        chars_le(&chars_of(p.1.as_str()), &chars_of(q.1.as_str()))
    } else {
        proof {
            if p.0@ == q.0@ {
                lemma_text_le_reflexive(p.0@);
            }
        }
        le0
    }
}

/// The character views of a list of string pairs.
pub open spec fn pair_views(v: Seq<(String, String)>) -> Seq<(Seq<char>, Seq<char>)> {
    v.map_values(|p: (String, String)| (p.0@, p.1@))
}

/// `v` sorted by `pair_le` (stable insertion sort).
pub fn sort_pairs(v: Vec<(String, String)>) -> (r: Vec<(String, String)>)
    ensures
        sorted_by(pair_views(r@), pair_le_fn()),
        pair_views(r@).to_multiset() == pair_views(v@).to_multiset(),
{
    broadcast use vstd::seq_lib::group_to_multiset_ensures;

    proof {
        lemma_pair_le_total_ordering();
    }
    let ghost f = pair_le_fn();
    let mut out: Vec<(String, String)> = Vec::new();
    let mut i: usize = 0;
    let n = v.len();
    let mut src = v;
    let ghost orig = pair_views(src@);
    proof {
        assert(pair_views(out@) =~= Seq::<(Seq<char>, Seq<char>)>::empty());
        assert(orig.take(0) =~= Seq::<(Seq<char>, Seq<char>)>::empty());
    }
    while i < n
        invariant
            i <= n == src.len(),
            orig == pair_views(src@),
            total_ordering(f),
            f == pair_le_fn(),
            sorted_by(pair_views(out@), f),
            pair_views(out@).to_multiset() == orig.take(i as int).to_multiset(),
        decreases n - i,
    {
        let x = (src[i].0.clone(), src[i].1.clone());
        let ghost xv = (x.0@, x.1@);
        assert(xv == orig[i as int]);
        let mut j: usize = 0;
        while j < out.len() && pair_le_exec(&out[j], &x)
            invariant
                j <= out.len(),
                forall|k: int| 0 <= k < j ==> f(#[trigger] pair_views(out@)[k], xv),
                f == pair_le_fn(),
                xv == (x.0@, x.1@),
            decreases out.len() - j,
        {
            assert(pair_views(out@)[j as int] == (out@[j as int].0@, out@[j as int].1@));
            j = j + 1;
        }
        let ghost before = pair_views(out@);
        out.insert(j, x);
        proof {
            let after = pair_views(out@);
            assert(after =~= before.insert(j as int, xv));
            assert(after.remove(j as int) =~= before);
            assert(after[j as int] == xv);
            after.to_multiset_ensures();
            assert(after.to_multiset() =~= before.to_multiset().insert(xv)) by {
                assert(after.remove(j as int).to_multiset() =~= after.to_multiset().remove(xv));
                assert(after.to_multiset().count(xv) > 0) by {
                    assert(after.contains(xv)) by {
                        assert(after[j as int] == xv);
                    }
                }
            }
            assert(orig.take(i + 1) =~= orig.take(i as int).push(xv));
            orig.take(i as int).to_multiset_ensures();
            if j < before.len() {
                assert(!f(before[j as int], xv));
                assert(f(xv, before[j as int]));
            }
            assert forall|a: int, b: int| 0 <= a < b < after.len() implies #[trigger] f(
                after[a],
                after[b],
            ) by {
                if b < j {
                    assert(after[a] == before[a] && after[b] == before[b]);
                } else if b == j {
                    assert(after[a] == before[a]);
                } else if a == j {
                    assert(after[b] == before[b - 1]);
                    if b - 1 > j {
                        assert(f(before[j as int], before[b - 1]));
                    }
                } else if a < j {
                    assert(after[a] == before[a] && after[b] == before[b - 1]);
                } else {
                    assert(after[a] == before[a - 1] && after[b] == before[b - 1]);
                }
            }
        }
        i = i + 1;
    }
    assert(orig.take(n as int) =~= orig);
    out
}

} // verus!
