//! Reading the parameters of an Emby authorization header, such as
//! `Emby UserId=u1, Client="Infuse", DeviceId=d1, Token=abc`.
use vstd::prelude::*;

use crate::config::views;
use crate::text::{chars_eq_ignore_case, chars_of, eq_ignore_case, split_by, split_on, string_of, trim, trim_str};

verus! {

/// The part of `s` before the first `c` (all of `s` when there is none).
pub open spec fn before_first(s: Seq<char>, c: char) -> Seq<char>
    decreases s.len(),
{
    if s.len() == 0 {
        s
    } else if s[0] == c {
        Seq::empty()
    } else {
        seq![s[0]] + before_first(s.drop_first(), c)
    }
}

/// The part of `s` after the first `c` (empty when there is none).
pub open spec fn after_first(s: Seq<char>, c: char) -> Seq<char>
    decreases s.len(),
{
    if s.len() == 0 {
        s
    } else if s[0] == c {
        s.drop_first()
    } else {
        after_first(s.drop_first(), c)
    }
}

/// The part of `s` after its last `c` (all of `s` when there is none).
pub open spec fn after_last(s: Seq<char>, c: char) -> Seq<char>
    decreases s.len(),
{
    if s.len() == 0 {
        s
    } else if s.last() == c {
        Seq::empty()
    } else {
        after_last(s.drop_last(), c).push(s.last())
    }
}

/// `v` without one pair of surrounding double quotes.
pub open spec fn unquote(v: Seq<char>) -> Seq<char> {
    if v.len() >= 2 && v[0] == '"' && v.last() == '"' {
        v.subrange(1, v.len() - 1)
    } else {
        v
    }
}

/// The name of a `name=value` parameter: the last word before the first `=`
/// (so a leading scheme such as `Emby` or `MediaBrowser` is not part of it).
pub open spec fn param_name(piece: Seq<char>) -> Seq<char> {
    after_last(trim(before_first(piece, '=')), ' ')
}

/// The value of a `name=value` parameter: after the first `=`, trimmed and
/// unquoted.
pub open spec fn param_value(piece: Seq<char>) -> Seq<char> {
    unquote(trim(after_first(piece, '=')))
}

/// Whether the comma-separated piece is the parameter `name`.
pub open spec fn is_param(piece: Seq<char>, name: Seq<char>) -> bool {
    piece.contains('=') && eq_ignore_case(param_name(piece), name)
}

/// The value of the first parameter among `pieces` named `name`.
pub open spec fn first_param(pieces: Seq<Seq<char>>, name: Seq<char>) -> Option<Seq<char>>
    decreases pieces.len(),
{
    if pieces.len() == 0 {
        None
    } else if is_param(pieces[0], name) {
        Some(param_value(pieces[0]))
    } else {
        first_param(pieces.drop_first(), name)
    }
}

/// The value of the parameter `name` (ASCII case ignored) of an
/// authorization header.
pub open spec fn auth_param(header: Seq<char>, name: Seq<char>) -> Option<Seq<char>> {
    first_param(split_on(trim(header), seq![',']), name)
}

/// Splits `cs` at its first `c`: (before, after, whether `c` occurs).
pub(crate) fn split_once(cs: &Vec<char>, c: char) -> (r: (String, String, bool))
    ensures
        r.0@ == before_first(cs@, c),
        r.1@ == after_first(cs@, c),
        r.2 == cs@.contains(c),
{
    let mut i: usize = 0;
    assert(cs@.skip(0) =~= cs@);
    assert(cs@.take(0) + before_first(cs@.skip(0), c) =~= before_first(cs@, c));
    while i < cs.len() && cs[i] != c
        invariant
            i <= cs.len(),
            before_first(cs@, c) == cs@.take(i as int) + before_first(cs@.skip(i as int), c),
            after_first(cs@, c) == after_first(cs@.skip(i as int), c),
            forall|k: int| 0 <= k < i ==> cs@[k] != c,
        decreases cs.len() - i,
    {
        let ghost t = cs@.skip(i as int);
        assert(t.drop_first() =~= cs@.skip(i + 1));
        assert(cs@.take(i + 1) =~= cs@.take(i as int) + seq![t[0]]);
        assert(cs@.take(i as int) + (seq![t[0]] + before_first(t.drop_first(), c)) =~= cs@.take(
            i + 1,
        ) + before_first(cs@.skip(i + 1), c));
        i = i + 1;
    }
    if i == cs.len() {
        assert(cs@.skip(i as int) =~= Seq::<char>::empty());
        assert(cs@.take(i as int) =~= cs@);
        assert(!cs@.contains(c));
        (string_of(cs, 0, i), String::new(), false)
    } else {
        let ghost t = cs@.skip(i as int);
        assert(t[0] == c);
        assert(cs@.contains(c)) by {
            assert(cs@[i as int] == c);
        }
        assert(t.drop_first() =~= cs@.subrange(i + 1, cs@.len() as int));
        assert(cs@.take(i as int) + Seq::<char>::empty() =~= cs@.subrange(0, i as int));
        (string_of(cs, 0, i), string_of(cs, i + 1, cs.len()), true)
    }
}

/// The part of `cs` after its last `c`.
fn after_last_exec(cs: &Vec<char>, c: char) -> (r: String)
    ensures
        r@ == after_last(cs@, c),
{
    let mut j: usize = cs.len();
    assert(cs@.take(j as int) =~= cs@);
    assert(cs@.subrange(j as int, cs.len() as int) =~= Seq::<char>::empty());
    while j > 0 && cs[j - 1] != c
        invariant
            j <= cs.len(),
            after_last(cs@, c) == after_last(cs@.take(j as int), c) + cs@.subrange(
                j as int,
                cs.len() as int,
            ),
        decreases j,
    {
        let ghost t = cs@.take(j as int);
        assert(t.drop_last() =~= cs@.take(j - 1));
        assert(after_last(t, c) == after_last(t.drop_last(), c).push(t.last()));
        assert(after_last(t.drop_last(), c).push(t.last()) + cs@.subrange(j as int, cs.len() as int)
            =~= after_last(cs@.take(j - 1), c) + cs@.subrange(j - 1, cs.len() as int));
        j = j - 1;
    }
    proof {
        let t = cs@.take(j as int);
        if j > 0 {
            assert(t.last() == c);
        }
        assert(after_last(t, c) =~= Seq::<char>::empty());
        assert(Seq::<char>::empty() + cs@.subrange(j as int, cs.len() as int) =~= cs@.subrange(
            j as int,
            cs.len() as int,
        ));
    }
    string_of(cs, j, cs.len())
}

/// `v` without one pair of surrounding double quotes.
fn unquote_exec(v: &Vec<char>) -> (r: String)
    ensures
        r@ == unquote(v@),
{
    if v.len() >= 2 && v[0] == '"' && v[v.len() - 1] == '"' {
        string_of(v, 1, v.len() - 1)
    } else {
        let r = string_of(v, 0, v.len());
        assert(v@.subrange(0, v@.len() as int) =~= v@);
        r
    }
}

/// The value of the parameter `name` (ASCII case ignored) of the
/// authorization header `header`.
pub fn authorization_param(header: &str, name: &str) -> (r: Option<String>)
    ensures
        match r {
            Some(v) => auth_param(header@, name@) == Some(v@),
            None => auth_param(header@, name@) is None,
        },
{
    let t = trim_str(header);
    let seps = vec![','];
    assert(seps@ =~= seq![',']);
    let pieces = split_by(t.as_str(), &seps);
    let ghost pv = views(pieces@);
    let nc = chars_of(name);
    let mut i: usize = 0;
    assert(pv.skip(0) =~= pv);
    while i < pieces.len()
        invariant
            i <= pieces.len(),
            pv == views(pieces@),
            pv == split_on(trim(header@), seq![',']),
            nc@ == name@,
            first_param(pv, name@) == first_param(pv.skip(i as int), name@),
        decreases pieces.len() - i,
    {
        let ghost p = pv.skip(i as int)[0];
        assert(p == pieces@[i as int]@);
        let pc = chars_of(pieces[i].as_str());
        let (before, after, has_eq) = split_once(&pc, '=');
        let key_t = trim_str(before.as_str());
        let key = after_last_exec(&chars_of(key_t.as_str()), ' ');
        if has_eq && chars_eq_ignore_case(&chars_of(key.as_str()), &nc) {
            let vt = trim_str(after.as_str());
            return Some(unquote_exec(&chars_of(vt.as_str())));
        }
        assert(pv.skip(i as int).drop_first() =~= pv.skip(i + 1));
        i = i + 1;
    }
    assert(pv.skip(i as int).len() == 0);
    None
}

} // verus!
