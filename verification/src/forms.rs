//! The `application/x-www-form-urlencoded` syntax, through the
//! `form_urlencoded` crate.
use vstd::prelude::*;

use crate::order::pair_views;

verus! {

/// The (name, value) pairs that `form_urlencoded::parse` yields for the
/// UTF-8 bytes of `input`, percent-decoded, in order.
pub uninterp spec fn form_pairs(input: Seq<char>) -> Seq<(Seq<char>, Seq<char>)>;

/// Whether the form serializer keeps a byte as it is: `*`, `-`, `.`, `_`,
/// an ASCII digit or an ASCII letter.
pub open spec fn form_byte_unchanged(b: u8) -> bool {
    b == 0x2a || b == 0x2d || b == 0x2e || b == 0x5f || (0x30 <= b && b <= 0x39) || (0x41 <= b
        && b <= 0x5a) || (0x61 <= b && b <= 0x7a)
}

/// The upper-case hexadecimal digit of `n` (below 16).
pub open spec fn upper_hex_digit(n: int) -> char {
    if n < 10 {
        (0x30 + n) as char
    } else {
        (0x41 + n - 10) as char
    }
}

/// One byte as the form serializer writes it: kept, a space as `+`, any
/// other byte as `%` and two upper-case hexadecimal digits.
pub open spec fn form_byte_serialized(b: u8) -> Seq<char> {
    if form_byte_unchanged(b) {
        seq![b as char]
    } else if b == 0x20 {
        seq!['+']
    } else {
        seq!['%', upper_hex_digit(b as int / 16), upper_hex_digit(b as int % 16)]
    }
}

/// Bytes as the form serializer writes them, one after the other.
pub open spec fn form_bytes_serialized(bytes: Seq<u8>) -> Seq<char>
    decreases bytes.len(),
{
    if bytes.len() == 0 {
        Seq::empty()
    } else {
        form_bytes_serialized(bytes.drop_last()) + form_byte_serialized(bytes.last())
    }
}

/// A name or value as the form serializer writes it: its UTF-8 bytes, each
/// serialized.
pub open spec fn form_text_serialized(s: Seq<char>) -> Seq<char> {
    form_bytes_serialized(vstd::utf8::encode_utf8(s))
}

/// The text `form_urlencoded::Serializer` produces for `pairs`, in order:
/// each pair as its serialized name, `=` and its serialized value, the pairs
/// joined by `&`.
pub open spec fn form_serialized(pairs: Seq<(Seq<char>, Seq<char>)>) -> Seq<char>
    decreases pairs.len(),
{
    if pairs.len() == 0 {
        Seq::empty()
    } else {
        let item = form_text_serialized(pairs.last().0) + seq!['='] + form_text_serialized(
            pairs.last().1,
        );
        if pairs.len() == 1 {
            item
        } else {
            form_serialized(pairs.drop_last()) + seq!['&'] + item
        }
    }
}

/// Calls `form_urlencoded::parse` on the bytes of `input` and collects the
/// decoded pairs; the contract names the result `form_pairs(input)`.
#[verifier::external_body]
pub(crate) fn parse_form_pairs(input: &str) -> (r: Vec<(String, String)>)
    ensures
        pair_views(r@) == form_pairs(input@),
{
    form_urlencoded::parse(input.as_bytes()).into_owned().collect()
}

/// Calls `form_urlencoded::Serializer` on `pairs`, in order. The contract
/// states what its source does: `extend_pairs` appends each pair as the
/// `byte_serialize`d UTF-8 bytes of the name, `=` and those of the value,
/// with `&` before every pair but the first, and `finish` hands the text
/// back (`form_serialized`).
#[verifier::external_body]
pub(crate) fn serialize_form_pairs(pairs: &Vec<(String, String)>) -> (r: String)
    ensures
        r@ == form_serialized(pair_views(pairs@)),
{
    form_urlencoded::Serializer::new(String::new()).extend_pairs(
        pairs.iter().map(|p| (p.0.as_str(), p.1.as_str())),
    ).finish()
}


/// The entries of the JSON object that `serde_json::from_str::<serde_json::Value>`
/// reads from `text`, in the order the parsed map yields them, each value
/// given as its text when it is a JSON string; none when `text` is not JSON or
/// not an object.
pub uninterp spec fn json_object_entries(text: Seq<char>) -> Option<Seq<(Seq<char>, Option<Seq<char>>)>>;

/// The view of parsed JSON object entries.
pub open spec fn entry_views(v: Seq<(String, Option<String>)>) -> Seq<(Seq<char>, Option<Seq<char>>)> {
    v.map_values(|e: (String, Option<String>)| (e.0@, match e.1 {
        Some(s) => Some(s@),
        None => None,
    }))
}

/// Calls `serde_json::from_str::<serde_json::Value>` on `text`; for an
/// object, yields its entries with string values as text; the contract names
/// the result `json_object_entries(text)`.
#[verifier::external_body]
pub(crate) fn parse_json_object(text: &str) -> (r: Option<Vec<(String, Option<String>)>>)
    ensures
        match r {
            Some(v) => json_object_entries(text@) == Some(entry_views(v@)),
            None => json_object_entries(text@) is None,
        },
{
    match serde_json::from_str::<serde_json::Value>(text) {
        Ok(serde_json::Value::Object(map)) => Some(
            map.into_iter().map(|(k, v)| (k, v.as_str().map(|s| s.to_string()))).collect(),
        ),
        _ => None,
    }
}

/// Calls `std::str::from_utf8`: the text of `bytes` when they are valid UTF-8.
#[verifier::external_body]
pub(crate) fn utf8_text(bytes: &[u8]) -> (r: Option<&str>)
    ensures
        r is Some <==> vstd::utf8::valid_utf8(bytes@),
        r matches Some(s) ==> s@ == vstd::utf8::decode_utf8(bytes@),
{
    std::str::from_utf8(bytes).ok()
}


/// `c` does not occur in `s`.
pub open spec fn lacks(s: Seq<char>, c: char) -> bool {
    forall|k: int| 0 <= k < s.len() ==> s[k] != c
}

/// A serialized byte is one kept character, `+`, or `%` and two hex digits;
/// it never holds `&` or `=`.
proof fn lemma_byte_code_shape(b: u8)
    ensures
        ({
            let c = form_byte_serialized(b);
            &&& c.len() == 1 || c.len() == 3
            &&& lacks(c, '&') && lacks(c, '=')
            &&& c.len() == 1 ==> c[0] != '%'
            &&& c.len() == 3 ==> c[0] == '%' && c[1] != '%' && c[2] != '%'
        }),
{
}

/// Two bytes serialized alike are the same byte.
proof fn lemma_byte_code_injective(b1: u8, b2: u8)
    requires
        form_byte_serialized(b1) == form_byte_serialized(b2),
    ensures
        b1 == b2,
{
    let c = form_byte_serialized(b1);
    if c.len() == 3 {
        assert(form_byte_serialized(b2)[1] == c[1]);
        assert(form_byte_serialized(b2)[2] == c[2]);
        assert(b1 as int / 16 == b2 as int / 16);
        assert(b1 as int % 16 == b2 as int % 16);
    } else {
        assert(form_byte_serialized(b2)[0] == c[0]);
    }
}

/// Serialized bytes hold no `&` or `=`, and each `%` in them is followed by
/// two more characters.
proof fn lemma_bytes_serialized_shape(bs: Seq<u8>)
    ensures
        lacks(form_bytes_serialized(bs), '&'),
        lacks(form_bytes_serialized(bs), '='),
        forall|k: int|
            0 <= k < form_bytes_serialized(bs).len() && #[trigger] form_bytes_serialized(bs)[k]
                == '%' ==> k + 2 < form_bytes_serialized(bs).len(),
        bs.len() > 0 ==> form_bytes_serialized(bs).len() > 0,
    decreases bs.len(),
{
    if bs.len() > 0 {
        lemma_bytes_serialized_shape(bs.drop_last());
        lemma_byte_code_shape(bs.last());
        let p = form_bytes_serialized(bs.drop_last());
        let c = form_byte_serialized(bs.last());
        let t = form_bytes_serialized(bs);
        assert(t == p + c);
        assert forall|k: int| 0 <= k < t.len() implies t[k] != '&' && t[k] != '=' by {
            if k < p.len() {
                assert(t[k] == p[k]);
            } else {
                assert(t[k] == c[k - p.len()]);
            }
        }
        assert forall|k: int| 0 <= k < t.len() && #[trigger] t[k] == '%' implies k + 2 < t.len() by {
            if k < p.len() {
                assert(t[k] == p[k]);
            } else {
                assert(t[k] == c[k - p.len()]);
            }
        }
    }
}

/// Different byte strings serialize differently.
proof fn lemma_bytes_serialized_injective(b1: Seq<u8>, b2: Seq<u8>)
    requires
        form_bytes_serialized(b1) == form_bytes_serialized(b2),
    ensures
        b1 == b2,
    decreases b1.len() + b2.len(),
{
    lemma_bytes_serialized_shape(b1);
    lemma_bytes_serialized_shape(b2);
    if b1.len() == 0 || b2.len() == 0 {
        assert(b1 =~= b2);
    } else {
        let t = form_bytes_serialized(b1);
        let p1 = form_bytes_serialized(b1.drop_last());
        let p2 = form_bytes_serialized(b2.drop_last());
        let c1 = form_byte_serialized(b1.last());
        let c2 = form_byte_serialized(b2.last());
        lemma_byte_code_shape(b1.last());
        lemma_byte_code_shape(b2.last());
        lemma_bytes_serialized_shape(b1.drop_last());
        lemma_bytes_serialized_shape(b2.drop_last());
        assert(t == p1 + c1);
        assert(t == p2 + c2);
        let n = t.len();
        if c1.len() == 3 && c2.len() == 1 {
            assert(t[n - 3] == c1[0]);
            assert(t[n - 3] == p2[n - 3]);
            assert(false);
        } else if c1.len() == 1 && c2.len() == 3 {
            assert(t[n - 3] == c2[0]);
            assert(t[n - 3] == p1[n - 3]);
            assert(false);
        }
        assert(c1.len() == c2.len());
        assert(c1 =~= t.subrange(n - c1.len(), n as int));
        assert(c2 =~= t.subrange(n - c2.len(), n as int));
        assert(p1 =~= t.subrange(0, n - c1.len()));
        assert(p2 =~= t.subrange(0, n - c2.len()));
        lemma_byte_code_injective(b1.last(), b2.last());
        lemma_bytes_serialized_injective(b1.drop_last(), b2.drop_last());
        assert(b1 =~= b1.drop_last().push(b1.last()));
        assert(b2 =~= b2.drop_last().push(b2.last()));
    }
}

/// A serialized name or value holds no `&` or `=`, and different texts
/// serialize differently.
proof fn lemma_text_serialized(s1: Seq<char>, s2: Seq<char>)
    ensures
        lacks(form_text_serialized(s1), '&'),
        lacks(form_text_serialized(s1), '='),
        form_text_serialized(s1) == form_text_serialized(s2) ==> s1 == s2,
{
    lemma_bytes_serialized_shape(vstd::utf8::encode_utf8(s1));
    if form_text_serialized(s1) == form_text_serialized(s2) {
        lemma_bytes_serialized_injective(vstd::utf8::encode_utf8(s1), vstd::utf8::encode_utf8(s2));
        vstd::utf8::encode_utf8_decode_utf8(s1);
        vstd::utf8::encode_utf8_decode_utf8(s2);
    }
}

/// Splitting at the first `sep`: when the parts before it hold none, equal
/// joins have equal parts.
proof fn lemma_split_first(a: Seq<char>, b: Seq<char>, c: Seq<char>, d: Seq<char>, sep: char)
    requires
        lacks(a, sep),
        lacks(c, sep),
        a + seq![sep] + b == c + seq![sep] + d,
    ensures
        a == c,
        b == d,
{
    let t = a + seq![sep] + b;
    if a.len() < c.len() {
        assert(t[a.len() as int] == sep);
        assert(t[a.len() as int] == c[a.len() as int]);
    } else if c.len() < a.len() {
        assert(t[c.len() as int] == sep);
        assert(t[c.len() as int] == a[c.len() as int]);
    }
    assert(a =~= t.subrange(0, a.len() as int));
    assert(c =~= t.subrange(0, c.len() as int));
    assert(b =~= t.subrange(a.len() as int + 1, t.len() as int));
    assert(d =~= t.subrange(c.len() as int + 1, t.len() as int));
}

/// Splitting at the last `sep`: when the parts after it hold none, equal
/// joins have equal parts.
proof fn lemma_split_last(a: Seq<char>, b: Seq<char>, c: Seq<char>, d: Seq<char>, sep: char)
    requires
        lacks(b, sep),
        lacks(d, sep),
        a + seq![sep] + b == c + seq![sep] + d,
    ensures
        a == c,
        b == d,
{
    let t = a + seq![sep] + b;
    let u = a + seq![sep];
    let v = c + seq![sep];
    assert(t == v + d);
    if a.len() < c.len() {
        assert(t[c.len() as int] == v[c.len() as int]);
        assert(t[c.len() as int] == b[c.len() - u.len()]);
    } else if c.len() < a.len() {
        assert(t[a.len() as int] == u[a.len() as int]);
        assert(t[a.len() as int] == d[a.len() - v.len()]);
    }
    assert(a =~= t.subrange(0, a.len() as int));
    assert(c =~= t.subrange(0, c.len() as int));
    assert(b =~= t.subrange(a.len() as int + 1, t.len() as int));
    assert(d =~= t.subrange(c.len() as int + 1, t.len() as int));
}

/// One serialized pair: name, `=`, value; it holds no `&`.
proof fn lemma_item_shape(p: (Seq<char>, Seq<char>))
    ensures
        lacks(form_text_serialized(p.0) + seq!['='] + form_text_serialized(p.1), '&'),
{
    lemma_text_serialized(p.0, p.0);
    lemma_text_serialized(p.1, p.1);
    let t = form_text_serialized(p.0) + seq!['='] + form_text_serialized(p.1);
    let n0 = form_text_serialized(p.0).len();
    assert forall|k: int| 0 <= k < t.len() implies t[k] != '&' by {
        if k < n0 {
            assert(t[k] == form_text_serialized(p.0)[k]);
        } else if k > n0 {
            assert(t[k] == form_text_serialized(p.1)[k - n0 - 1]);
        }
    }
}

/// Serializing a list of pairs loses nothing: different lists give
/// different text.
pub proof fn lemma_form_serialized_injective(s1: Seq<(Seq<char>, Seq<char>)>, s2: Seq<(Seq<char>, Seq<char>)>)
    ensures
        form_serialized(s1) == form_serialized(s2) ==> s1 == s2,
    decreases s1.len() + s2.len(),
{
    if form_serialized(s1) == form_serialized(s2) {
        if s1.len() == 0 || s2.len() == 0 {
            if s1.len() > 0 {
                assert(form_serialized(s1).len() > 0);
            }
            if s2.len() > 0 {
                assert(form_serialized(s2).len() > 0);
            }
            assert(s1 =~= s2);
        } else {
            let x1 = s1.last();
            let x2 = s2.last();
            let i1 = form_text_serialized(x1.0) + seq!['='] + form_text_serialized(x1.1);
            let i2 = form_text_serialized(x2.0) + seq!['='] + form_text_serialized(x2.1);
            lemma_item_shape(x1);
            lemma_item_shape(x2);
            let t = form_serialized(s1);
            let p1 = form_serialized(s1.drop_last());
            let p2 = form_serialized(s2.drop_last());
            if s1.len() == 1 && s2.len() > 1 {
                assert(t == p2 + seq!['&'] + i2);
                assert(t[p2.len() as int] == '&');
                assert(t[p2.len() as int] == i1[p2.len() as int]);
                assert(false);
            } else if s2.len() == 1 && s1.len() > 1 {
                assert(t == p1 + seq!['&'] + i1);
                assert(t[p1.len() as int] == '&');
                assert(t[p1.len() as int] == i2[p1.len() as int]);
                assert(false);
            }
            if s1.len() > 1 {
                lemma_split_last(p1, i1, p2, i2, '&');
                lemma_form_serialized_injective(s1.drop_last(), s2.drop_last());
            } else {
                assert(s1.drop_last() =~= s2.drop_last());
            }
            lemma_text_serialized(x1.0, x2.0);
            lemma_text_serialized(x2.0, x1.0);
            lemma_split_first(
                form_text_serialized(x1.0),
                form_text_serialized(x1.1),
                form_text_serialized(x2.0),
                form_text_serialized(x2.1),
                '=',
            );
            lemma_text_serialized(x1.0, x2.0);
            lemma_text_serialized(x1.1, x2.1);
            assert(s1 =~= s1.drop_last().push(x1));
            assert(s2 =~= s2.drop_last().push(x2));
        }
    }
}

} // verus!
