//! Showing a configuration file with its secrets hidden.
use vstd::prelude::*;

use crate::auth_header::{before_first, split_once};
use crate::text::{chars_of, copy_str, join2, split_by, split_on, trim, trim_str};

verus! {

/// The keys whose values are secrets.
pub open spec fn secret_key(k: Seq<char>) -> bool {
    ||| k == "token"@
    ||| k == "encipher_key"@
    ||| k == "encipher_iv"@
    ||| k == "password"@
    ||| k == "client_secret"@
    ||| k == "access_token"@
    ||| k == "refresh_token"@
}

/// A line as shown: a `key = value` line whose key is a secret keeps its
/// key and shows a masked value; any other line is shown as it is.
pub open spec fn masked_line(l: Seq<char>) -> Seq<char> {
    if l.contains('=') && secret_key(trim(before_first(l, '='))) {
        before_first(l, '=') + "= \"******\""@
    } else {
        l
    }
}

/// Lines joined by newlines.
pub open spec fn join_lines(ls: Seq<Seq<char>>) -> Seq<char>
    decreases ls.len(),
{
    if ls.len() == 0 {
        Seq::empty()
    } else if ls.len() == 1 {
        ls[0]
    } else {
        join_lines(ls.drop_last()) + seq!['\n'] + ls.last()
    }
}

/// A configuration text with the value of every secret line masked.
pub open spec fn masked_text(text: Seq<char>) -> Seq<char> {
    join_lines(split_on(text, seq!['\n']).map_values(|l: Seq<char>| masked_line(l)))
}

proof fn lemma_join_lines_extend_last(ls: Seq<Seq<char>>, c: char)
    requires
        ls.len() >= 1,
    ensures
        join_lines(ls.update(ls.len() - 1, ls.last().push(c))) == join_lines(ls).push(c),
{
    let u = ls.update(ls.len() - 1, ls.last().push(c));
    if ls.len() >= 2 {
        assert(u.drop_last() =~= ls.drop_last());
        assert(join_lines(ls.drop_last()) + seq!['\n'] + ls.last().push(c) =~= (join_lines(
            ls.drop_last(),
        ) + seq!['\n'] + ls.last()).push(c));
    }
}

/// Splitting a text at its newlines and joining the pieces again gives the
/// text back.
pub proof fn lemma_join_split_lines(t: Seq<char>)
    ensures
        join_lines(split_on(t, seq!['\n'])) == t,
    decreases t.len(),
{
    if t.len() > 0 {
        let p = t.drop_last();
        lemma_join_split_lines(p);
        crate::text::lemma_split_on_nonempty(p, seq!['\n']);
        let r = split_on(p, seq!['\n']);
        if t.last() == '\n' {
            assert(seq!['\n'].contains(t.last())) by {
                assert(seq!['\n'][0] == '\n');
            }
            assert(r.push(Seq::<char>::empty()).drop_last() =~= r);
            assert(join_lines(r) + seq!['\n'] + Seq::<char>::empty() =~= t);
        } else {
            assert(!seq!['\n'].contains(t.last()));
            lemma_join_lines_extend_last(r, t.last());
            assert(p.push(t.last()) =~= t);
        }
    } else {
        assert(split_on(t, seq!['\n']) =~= seq![Seq::<char>::empty()]);
    }
}

/// A text in which no line sets a secret key is shown unchanged.
pub proof fn lemma_mask_keeps_plain_text(t: Seq<char>)
    requires
        forall|k: int| 0 <= k < split_on(t, seq!['\n']).len() ==> masked_line(
            #[trigger] split_on(t, seq!['\n'])[k],
        ) == split_on(t, seq!['\n'])[k],
    ensures
        masked_text(t) == t,
{
    let ls = split_on(t, seq!['\n']);
    assert(ls.map_values(|l: Seq<char>| masked_line(l)) =~= ls);
    lemma_join_split_lines(t);
}

fn is_secret_key(k: &str) -> (r: bool)
    ensures
        r == secret_key(k@),
{
    proof {
        reveal_strlit("token");
        reveal_strlit("encipher_key");
        reveal_strlit("encipher_iv");
        reveal_strlit("password");
        reveal_strlit("client_secret");
        reveal_strlit("access_token");
        reveal_strlit("refresh_token");
    }
    let eq = |a: &str, b: &str| -> (r: bool)
        ensures
            r == (a@ == b@),
        { crate::playback_service::str_eq(a, b) };
    eq(k, "token") || eq(k, "encipher_key") || eq(k, "encipher_iv") || eq(k, "password") || eq(
        k,
        "client_secret",
    ) || eq(k, "access_token") || eq(k, "refresh_token")
}

/// One line as shown: see `masked_line`.
pub fn mask_line(l: &str) -> (r: String)
    ensures
        r@ == masked_line(l@),
{
    let cs = chars_of(l);
    let (before, _after, has_eq) = split_once(&cs, '=');
    let key = trim_str(before.as_str());
    if has_eq && is_secret_key(key.as_str()) {
        proof {
            reveal_strlit("= \"******\"");
        }
        join2(before.as_str(), "= \"******\"")
    } else {
        copy_str(l)
    }
}

/// A configuration text with its secrets masked: see `masked_text`.
pub fn mask_toml_secrets(text: &str) -> (r: String)
    ensures
        r@ == masked_text(text@),
{
    let seps = vec!['\n'];
    assert(seps@ =~= seq!['\n']);
    let pieces = split_by(text, &seps);
    let ghost masked = split_on(text@, seq!['\n']).map_values(|l: Seq<char>| masked_line(l));
    assert(pieces@.map_values(|x: String| x@) == split_on(text@, seq!['\n']));
    let mut out = String::new();
    let mut i: usize = 0;
    while i < pieces.len()
        invariant
            i <= pieces.len(),
            masked.len() == pieces.len(),
            forall|k: int| 0 <= k < pieces.len() ==> #[trigger] masked[k] == masked_line(pieces@[k]@),
            out@ == join_lines(masked.take(i as int)),
        decreases pieces.len() - i,
    {
        let m = mask_line(pieces[i].as_str());
        assert(masked.take(i + 1).drop_last() =~= masked.take(i as int));
        assert(masked.take(i + 1).last() == m@);
        if i > 0 {
            let with_nl = join2(out.as_str(), "\n");
            proof {
                reveal_strlit("\n");
            }
            out = join2(with_nl.as_str(), m.as_str());
        } else {
            assert(masked.take(1) =~= seq![m@]);
            out = m;
        }
        i = i + 1;
    }
    assert(masked.take(pieces.len() as int) =~= masked);
    out
}

} // verus!
