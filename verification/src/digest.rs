//! A stable hexadecimal digest of a text (64-bit FNV-1a over its UTF-8 bytes),
//! used to build fixed-length cache keys.
use vstd::prelude::*;

use crate::text::push_char;

verus! {

pub const FNV_OFFSET: u64 = 0xcbf29ce484222325;

pub const FNV_PRIME: u64 = 0x100000001b3;

/// 64-bit FNV-1a of a byte sequence.
pub open spec fn fnv1a(bytes: Seq<u8>) -> u64
    decreases bytes.len(),
{
    if bytes.len() == 0 {
        FNV_OFFSET
    } else {
        (fnv1a(bytes.drop_last()) ^ (bytes.last() as u64)).wrapping_mul(FNV_PRIME)
    }
}

/// The lower-case hexadecimal digit for `d < 16`.
pub open spec fn hex_digit(d: nat) -> char {
    if d < 10 {
        ((48 + d) as u8) as char
    } else {
        ((87 + d) as u8) as char
    }
}

/// The last `n` hexadecimal digits of `x`, most significant first.
pub open spec fn hex_n(x: nat, n: nat) -> Seq<char>
    decreases n,
{
    if n == 0 {
        Seq::empty()
    } else {
        hex_n(x / 16, (n - 1) as nat).push(hex_digit(x % 16))
    }
}

/// The digest of a text: its FNV-1a hash as 16 lower-case hex digits.
pub open spec fn digest_of(s: Seq<char>) -> Seq<char> {
    hex_n(fnv1a(vstd::utf8::encode_utf8(s)) as nat, 16)
}

fn hex_digit_exec(d: u64) -> (c: char)
    requires
        d < 16,
    ensures
        c == hex_digit(d as nat),
{
    if d < 10 {
        ((48 + d) as u8) as char
    } else {
        ((87 + d) as u8) as char
    }
}

/// 64-bit FNV-1a of `bytes`.
pub fn fnv1a_exec(bytes: &[u8]) -> (h: u64)
    ensures
        h == fnv1a(bytes@),
{
    let mut h: u64 = FNV_OFFSET;
    let mut i: usize = 0;
    assert(bytes@.take(0) =~= Seq::<u8>::empty());
    while i < bytes.len()
        invariant
            i <= bytes.len(),
            h == fnv1a(bytes@.take(i as int)),
        decreases bytes.len() - i,
    {
        assert(bytes@.take(i + 1).drop_last() =~= bytes@.take(i as int));
        h = (h ^ (bytes[i] as u64)).wrapping_mul(FNV_PRIME);
        i = i + 1;
    }
    assert(bytes@.take(bytes.len() as int) =~= bytes@);
    h
}

/// The 16 hex digits of `h`.
pub fn hex16(h: u64) -> (r: String)
    ensures
        r@ == hex_n(h as nat, 16),
{
    let mut digits: Vec<char> = Vec::new();
    let mut x: u64 = h;
    let mut i: usize = 0;
    while i < 16
        invariant
            i <= 16,
            hex_n(h as nat, 16) == hex_n(x as nat, (16 - i) as nat) + digits@,
        decreases 16 - i,
    {
        let d = x % 16;
        let c = hex_digit_exec(d);
        assert(hex_n(x as nat, (16 - i) as nat) == hex_n((x / 16) as nat, (16 - i - 1) as nat).push(c));
        let ghost old_digits = digits@;
        digits.insert(0, c);
        assert(hex_n((x / 16) as nat, (16 - i - 1) as nat).push(c) + old_digits =~= hex_n(
            (x / 16) as nat,
            (16 - i - 1) as nat,
        ) + digits@);
        x = x / 16;
        i = i + 1;
    }
    assert(hex_n(x as nat, 0) =~= Seq::<char>::empty());
    assert(digits@ =~= hex_n(h as nat, 16));
    let mut r = String::new();
    let mut k: usize = 0;
    while k < digits.len()
        invariant
            k <= digits.len(),
            r@ == digits@.take(k as int),
        decreases digits.len() - k,
    {
        push_char(&mut r, digits[k]);
        k = k + 1;
        assert(r@ =~= digits@.take(k as int));
    }
    assert(digits@.take(digits.len() as int) =~= digits@);
    r
}

/// The digest of `s` (16 lower-case hex digits).
pub fn hash_hex(s: &str) -> (r: String)
    ensures
        r@ == digest_of(s@),
{
    hex16(fnv1a_exec(s.as_bytes()))
}

} // verus!
