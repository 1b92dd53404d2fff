//! String comparisons with contracts over the characters of the strings.

use vstd::prelude::*;
use vstd::utf8::encode_utf8;
use vstd::utf8::encode_utf8_decode_utf8;

verus! {

/// Two encodings are equal exactly when the encoded texts are.
pub proof fn lemma_encoding_injective(a: Seq<char>, b: Seq<char>)
    ensures
        (encode_utf8(a) == encode_utf8(b)) <==> (a == b),
{
    encode_utf8_decode_utf8(a);
    encode_utf8_decode_utf8(b);
}

/// Whether `a` and `b` hold the same text.
pub fn str_eq(a: &str, b: &str) -> (same: bool)
    ensures
        same == (a@ == b@),
{
    let x = a.as_bytes();
    let y = b.as_bytes();
    proof {
        lemma_encoding_injective(a@, b@);
    }
    if x.len() != y.len() {
        return false;
    }
    let n: usize = x.len();
    let mut i: usize = 0;
    while i < n
        invariant
            i <= n,
            n == x@.len(),
            n == y@.len(),
            x@ == encode_utf8(a@),
            y@ == encode_utf8(b@),
            forall|k: int| 0 <= k < i ==> x@[k] == y@[k],
        decreases n - i,
    {
        if x[i] != y[i] {
            return false;
        }
        i = i + 1;
    }
    assert(x@ =~= y@);
    true
}

/// The characters of `s`, one by one.
pub fn chars_of(s: &str) -> (v: Vec<char>)
    ensures
        v@ == s@,
{
    let mut v: Vec<char> = Vec::new();
    for c in it: s.chars()
        invariant
            v@ == it.seq().take(it.index() as int),
            it.seq() == s@,
    {
        v.push(c);
    }
    v
}

/// Whether `s` begins with `prefix`.
pub fn starts_with(s: &str, prefix: &str) -> (b: bool)
    ensures
        b == prefix@.is_prefix_of(s@),
{
    let text = chars_of(s);
    let head = chars_of(prefix);
    if head.len() > text.len() {
        return false;
    }
    let n: usize = head.len();
    let mut i: usize = 0;
    while i < n
        invariant
            i <= n,
            n == head@.len(),
            n <= text@.len(),
            head@ == prefix@,
            text@ == s@,
            forall|k: int| 0 <= k < i ==> head@[k] == text@[k],
        decreases n - i,
    {
        if head[i] != text[i] {
            assert(text@.subrange(0, n as int)[i as int] == text@[i as int]);
            return false;
        }
        i = i + 1;
    }
    assert(head@ =~= text@.subrange(0, n as int));
    true
}

/// Whether the last character of `s` is `c`.
pub fn ends_with_char(s: &str, c: char) -> (b: bool)
    ensures
        b == (s@.len() > 0 && s@.last() == c),
{
    let text = chars_of(s);
    let n: usize = text.len();
    n > 0 && text[n - 1] == c
}

/// The text of `s` from character `from` on.
pub fn tail_from(s: &str, from: usize) -> (t: String)
    requires
        from <= s@.len(),
    ensures
        t@ == s@.subrange(from as int, s@.len() as int),
{
    let n: usize = s.unicode_len();
    String::from_str(s.substring_char(from, n))
}

/// The first `to` characters of `s`.
pub fn head_to(s: &str, to: usize) -> (t: String)
    requires
        to <= s@.len(),
    ensures
        t@ == s@.subrange(0, to as int),
{
    String::from_str(s.substring_char(0, to))
}

} // verus!
