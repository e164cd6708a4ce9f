use vstd::prelude::*;
use vstd::slice::slice_subrange;
use vstd::string::StringSliceAdditionalSpecFns;
use vstd::utf8::{
    decode_utf8, encode_utf8, encode_utf8_decode_utf8, encode_utf8_valid_utf8, is_char_boundary_iff_not_is_continuation_byte,
    length_of_first_scalar, pop_first_scalar, valid_utf8, valid_utf8_split,
};

use crate::dns::wire::{find_byte, DOT};

verus! {

/// The lowercase hexadecimal digit for a value below 16.
pub open spec fn hex_digit(n: int) -> char {
    if n < 10 {
        (48 + n) as char
    } else {
        (87 + n) as char
    }
}

/// Two lowercase hexadecimal digits per byte, the high nibble first.
pub open spec fn hex_of(b: Seq<u8>) -> Seq<char>
    decreases b.len(),
{
    if b.len() == 0 {
        seq![]
    } else {
        hex_of(b.drop_last()) + seq![hex_digit(b.last() as int / 16), hex_digit(b.last() as int % 16)]
    }
}

/// The decimal digits of a natural number, without sign or padding.
pub open spec fn decimal_of(n: nat) -> Seq<char>
    decreases n,
{
    if n < 10 {
        seq![(48 + n) as char]
    } else {
        decimal_of(n / 10) + seq![(48 + n % 10) as char]
    }
}

/// Relies on hex::encode: each byte becomes two lowercase hexadecimal digits,
/// the high nibble first.
#[verifier::external_body]
pub(crate) fn hex_encode(b: &[u8]) -> (r: String)
    ensures
        r@ == hex_of(b@),
{
    hex::encode(b)
}

/// Relies on usize's ToString: the decimal digits of the value.
#[verifier::external_body]
pub(crate) fn decimal(n: usize) -> (r: String)
    ensures
        r@ == decimal_of(n as nat),
{
    n.to_string()
}

/// Relies on String::push_str: the characters of `s` are appended.
#[verifier::external_body]
pub(crate) fn append(dst: &mut String, s: &str)
    ensures
        final(dst)@ == old(dst)@ + s@,
{
    dst.push_str(s)
}

/// Relies on std::str::from_utf8: it accepts exactly the valid UTF-8 byte
/// strings, and decodes them.
#[verifier::external_body]
pub(crate) fn utf8_string(b: &[u8]) -> (r: Option<String>)
    ensures
        r is Some <==> valid_utf8(b@),
        r matches Some(s) ==> s@ == decode_utf8(b@),
{
    match std::str::from_utf8(b) {
        Ok(s) => Some(s.to_owned()),
        Err(_) => None,
    }
}

/// Whether two strings hold the same characters.
pub(crate) fn same_text(a: &str, b: &str) -> (r: bool)
    ensures
        r == (a@ == b@),
{
    let x = a.as_bytes();
    let y = b.as_bytes();
    proof {
        encode_utf8_decode_utf8(a@);
        encode_utf8_decode_utf8(b@);
    }
    if x.len() != y.len() {
        return false;
    }
    let mut i: usize = 0;
    while i < x.len()
        invariant
            x@ == a.spec_bytes(),
            y@ == b.spec_bytes(),
            a@ == b@ ==> x@ == y@,
            x@.len() == y@.len(),
            i <= x@.len(),
            forall|k: int| 0 <= k < i ==> x@[k] == y@[k],
        decreases x@.len() - i,
    {
        if x[i] != y[i] {
            return false;
        }
        i = i + 1;
    }
    assert(x@ =~= y@);
    true
}

/// Splitting valid UTF-8 around an ASCII byte leaves valid UTF-8 on both
/// sides.
pub proof fn lemma_split_at_ascii(b: Seq<u8>, i: int)
    requires
        valid_utf8(b),
        0 <= i < b.len(),
        b[i] < 0x80,
    ensures
        valid_utf8(b.subrange(0, i)),
        valid_utf8(b.subrange(i + 1, b.len() as int)),
{
    is_char_boundary_iff_not_is_continuation_byte(b, i);
    valid_utf8_split(b, i);
    let s = b.subrange(i, b.len() as int);
    assert(valid_utf8(s));
    assert(length_of_first_scalar(s) == 1);
    assert(pop_first_scalar(s) =~= b.subrange(i + 1, b.len() as int));
}

/// The `k`-th dot-separated field of `b`, empty past the last one.
pub open spec fn field(b: Seq<u8>, k: nat) -> Seq<u8>
    decreases k,
{
    let j = find_byte(b, 0, DOT);
    if k == 0 {
        b.subrange(0, j)
    } else if j >= b.len() {
        seq![]
    } else {
        field(b.subrange(j + 1, b.len() as int), (k - 1) as nat)
    }
}

/// The `k`-th dot-separated field of a text.
pub open spec fn text_field(s: Seq<char>, k: nat) -> Seq<char> {
    decode_utf8(field(encode_utf8(s), k))
}

/// The offset of the first `c` at or after `i` lies between `i` and the end.
pub proof fn lemma_find_byte_bounds(b: Seq<u8>, i: int, c: u8)
    requires
        0 <= i <= b.len(),
    ensures
        i <= find_byte(b, i, c) <= b.len(),
        find_byte(b, i, c) < b.len() ==> b[find_byte(b, i, c)] == c,
    decreases b.len() - i,
{
    if i < b.len() && b[i] != c {
        lemma_find_byte_bounds(b, i + 1, c);
    }
}

/// Every field of valid UTF-8 is valid UTF-8.
pub proof fn lemma_field_valid(b: Seq<u8>, k: nat)
    requires
        valid_utf8(b),
    ensures
        valid_utf8(field(b, k)),
    decreases k,
{
    let j = find_byte(b, 0, DOT);
    lemma_find_byte_bounds(b, 0, DOT);
    if j < b.len() {
        lemma_split_at_ascii(b, j);
        if k > 0 {
            lemma_field_valid(b.subrange(j + 1, b.len() as int), (k - 1) as nat);
        }
    } else {
        assert(b.subrange(0, j) =~= b);
        if k > 0 {
            assert(valid_utf8(Seq::<u8>::empty()));
        }
    }
}

/// The offset of the first `c` at or after `i` in `b`; see `find_byte`.
pub(crate) fn find_byte_from(b: &[u8], i: usize, c: u8) -> (r: usize)
    requires
        i <= b@.len(),
    ensures
        r == find_byte(b@, i as int, c),
        i <= r <= b@.len(),
{
    proof {
        lemma_find_byte_bounds(b@, i as int, c);
    }
    let mut j = i;
    while j < b.len() && b[j] != c
        invariant
            i <= j <= b@.len(),
            find_byte(b@, i as int, c) == find_byte(b@, j as int, c),
        decreases b@.len() - j,
    {
        j = j + 1;
    }
    j
}

/// The `k`-th dot-separated field of `b`.
fn nth_field<'a>(b: &'a [u8], k: usize) -> (r: &'a [u8])
    ensures
        r@ == field(b@, k as nat),
    decreases k,
{
    let j = find_byte_from(b, 0, DOT);
    if k == 0 {
        slice_subrange(b, 0, j)
    } else if j >= b.len() {
        let e = slice_subrange(b, 0, 0);
        assert(e@ =~= Seq::<u8>::empty());
        e
    } else {
        nth_field(slice_subrange(b, j + 1, b.len()), k - 1)
    }
}

/// The `k`-th dot-separated field of a text; see `text_field`.
pub(crate) fn nth_text_field(s: &str, k: usize) -> (r: String)
    ensures
        r@ == text_field(s@, k as nat),
{
    let f = nth_field(s.as_bytes(), k);
    proof {
        encode_utf8_valid_utf8(s@);
        lemma_field_valid(encode_utf8(s@), k as nat);
    }
    match utf8_string(f) {
        Some(t) => t,
        None => String::new(),
    }
}

} // verus!
