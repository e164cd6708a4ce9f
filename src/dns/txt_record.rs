use vstd::prelude::*;
use vstd::slice::slice_subrange;
use vstd::utf8::{decode_utf8, encode_utf8, encode_utf8_valid_utf8};

use crate::dns::error::{Error, ErrorKind};
use crate::dns::reader::Reader;
use crate::dns::record::Record;
use crate::dns::text::{find_byte_from, lemma_find_byte_bounds, lemma_split_at_ascii, utf8_string};
use crate::dns::typ::Type;
use crate::dns::wire::{find_byte, strings_at};

verus! {

/// The byte that separates an attribute's key from its value.
pub const EQ: u8 = 0x3d;

/// The key of a `key[=value]` attribute string: the text before the first
/// `=`, or all of it.
pub open spec fn attr_key(s: Seq<char>) -> Seq<char> {
    decode_utf8(encode_utf8(s).subrange(0, find_byte(encode_utf8(s), 0, EQ)))
}

/// The value of a `key[=value]` attribute string: the text after the first
/// `=`, or nothing.
pub open spec fn attr_value(s: Seq<char>) -> Seq<char> {
    let b = encode_utf8(s);
    let j = find_byte(b, 0, EQ);
    if j < b.len() {
        decode_utf8(b.subrange(j + 1, b.len() as int))
    } else {
        seq![]
    }
}

/// A byte with ASCII upper-case letters folded to lower case.
pub open spec fn fold_byte(c: u8) -> u8 {
    if 0x41 <= c <= 0x5a {
        (c + 0x20) as u8
    } else {
        c
    }
}

/// Whether two keys are equal when ASCII letters are compared without regard
/// to case.
pub open spec fn same_key(a: Seq<char>, b: Seq<char>) -> bool {
    &&& encode_utf8(a).len() == encode_utf8(b).len()
    &&& forall|i: int|
        0 <= i < encode_utf8(a).len() ==> fold_byte(#[trigger] encode_utf8(a)[i]) == fold_byte(
            encode_utf8(b)[i],
        )
}

/// Whether some attribute has the key `k`, ignoring ASCII case.
pub open spec fn has_key(attrs: Seq<(Seq<char>, Seq<char>)>, k: Seq<char>) -> bool {
    exists|i: int| 0 <= i < attrs.len() && same_key((#[trigger] attrs[i]).0, k)
}

/// Whether two keys are equal, ignoring ASCII case; see `same_key`.
pub(crate) fn same_key_text(a: &str, b: &str) -> (r: bool)
    ensures
        r == same_key(a@, b@),
{
    let x = a.as_bytes();
    let y = b.as_bytes();
    if x.len() != y.len() {
        return false;
    }
    let mut i: usize = 0;
    while i < x.len()
        invariant
            x@ == encode_utf8(a@),
            y@ == encode_utf8(b@),
            x@.len() == y@.len(),
            i <= x@.len(),
            forall|k: int| 0 <= k < i ==> fold_byte(#[trigger] x@[k]) == fold_byte(y@[k]),
        decreases x@.len() - i,
    {
        let c = x[i];
        let d = y[i];
        let fc = if 0x41 <= c && c <= 0x5a { c + 0x20 } else { c };
        let fd = if 0x41 <= d && d <= 0x5a { d + 0x20 } else { d };
        if fc != fd {
            assert(fold_byte(x@[i as int]) != fold_byte(y@[i as int]));
            return false;
        }
        i = i + 1;
    }
    true
}

/// The attributes of TXT strings in order, each key once: the first string
/// with a key wins, keys being compared without regard to ASCII case.
pub open spec fn txt_attrs(strs: Seq<Seq<char>>) -> Seq<(Seq<char>, Seq<char>)>
    decreases strs.len(),
{
    if strs.len() == 0 {
        seq![]
    } else {
        let prev = txt_attrs(strs.drop_last());
        if has_key(prev, attr_key(strs.last())) {
            prev
        } else {
            prev.push((attr_key(strs.last()), attr_value(strs.last())))
        }
    }
}

/// The character-strings of a TXT record's RDATA.
pub open spec fn txt_strings(r: Record) -> Result<Seq<Seq<char>>, ErrorKind> {
    match strings_at(r@.data, 0) {
        Ok((s, _)) => Ok(s),
        Err(e) => Err(e),
    }
}

/// The text of each string.
pub open spec fn texts(v: Seq<String>) -> Seq<Seq<char>> {
    v.map_values(|s: String| s@)
}

/// The text of each key and value.
pub open spec fn pairs(v: Seq<(String, String)>) -> Seq<(Seq<char>, Seq<char>)> {
    v.map_values(|p: (String, String)| (p.0@, p.1@))
}

/// Splits a `key[=value]` string at its first `=`.
fn split_attr(s: &String) -> (r: (String, String))
    ensures
        r.0@ == attr_key(s@),
        r.1@ == attr_value(s@),
{
    let b = s.as_str().as_bytes();
    let j = find_byte_from(b, 0, EQ);
    proof {
        encode_utf8_valid_utf8(s@);
        lemma_find_byte_bounds(b@, 0, EQ);
        if j < b@.len() {
            lemma_split_at_ascii(b@, j as int);
        } else {
            assert(b@.subrange(0, j as int) =~= b@);
        }
    }
    let key = match utf8_string(slice_subrange(b, 0, j)) {
        Some(k) => k,
        None => String::new(),
    };
    let value = if j < b.len() {
        match utf8_string(slice_subrange(b, j + 1, b.len())) {
            Some(v) => v,
            None => String::new(),
        }
    } else {
        String::new()
    };
    (key, value)
}

/// The index of the attribute with the key `k`, ignoring ASCII case.
pub(crate) fn find_key(attrs: &Vec<(String, String)>, k: &str) -> (r: Option<usize>)
    ensures
        r matches Some(i) ==> i < attrs@.len() && same_key(pairs(attrs@)[i as int].0, k@),
        r is None ==> !has_key(pairs(attrs@), k@),
{
    let mut i: usize = 0;
    while i < attrs.len()
        invariant
            i <= attrs@.len(),
            forall|j: int| 0 <= j < i ==> !same_key((#[trigger] attrs@[j]).0@, k@),
        decreases attrs@.len() - i,
    {
        if same_key_text(attrs[i].0.as_str(), k) {
            return Some(i);
        }
        i = i + 1;
    }
    assert forall|j: int| 0 <= j < pairs(attrs@).len() implies !same_key((#[trigger] pairs(attrs@)[j]).0, k@) by {
        assert(!same_key(attrs@[j].0@, k@));
    }
    None
}

/// TXTRecord represents a TXT record.
pub struct TXTRecord {
    name: String,
    strs: Vec<String>,
    attrs: Vec<(String, String)>,
}

impl TXTRecord {
    /// The owner name.
    pub closed spec fn owner(&self) -> Seq<char> {
        self.name@
    }

    /// The character-strings.
    pub closed spec fn texts(&self) -> Seq<Seq<char>> {
        texts(self.strs@)
    }

    /// The attributes, each key once.
    pub closed spec fn attrs(&self) -> Seq<(Seq<char>, Seq<char>)> {
        pairs(self.attrs@)
    }

    /// from_record reads the character-strings of the RDATA and their
    /// attributes; see `txt_strings` and `txt_attrs`.
    pub fn from_record(record: &Record) -> (r: Result<TXTRecord, Error>)
        ensures
            r is Ok <==> txt_strings(*record) is Ok,
            r matches Ok(t) ==> t.owner() == record@.name && txt_strings(*record) == Ok::<
                Seq<Seq<char>>,
                ErrorKind,
            >(t.texts()) && t.attrs() == txt_attrs(t.texts()),
            r matches Err(e) ==> txt_strings(*record) == Err::<Seq<Seq<char>>, ErrorKind>(e.kind),
    {
        let mut reader = Reader::new(record.data());
        let strs = match reader.read_strings() {
            Ok(v) => v,
            Err(e) => return Err(e),
        };
        let ghost all = texts(strs@);
        let mut attrs: Vec<(String, String)> = Vec::new();
        let mut i: usize = 0;
        assert(all.subrange(0, 0) =~= Seq::<Seq<char>>::empty());
        assert(pairs(attrs@) =~= Seq::<(Seq<char>, Seq<char>)>::empty());
        while i < strs.len()
            invariant
                i <= strs@.len(),
                all == texts(strs@),
                pairs(attrs@) == txt_attrs(all.subrange(0, i as int)),
            decreases strs@.len() - i,
        {
            let (k, v) = split_attr(&strs[i]);
            let ghost prev = pairs(attrs@);
            assert(all.subrange(0, i + 1).drop_last() =~= all.subrange(0, i as int));
            assert(all.subrange(0, i + 1).last() == strs@[i as int]@);
            if find_key(&attrs, k.as_str()).is_none() {
                attrs.push((k, v));
                assert(pairs(attrs@) =~= prev.push((attr_key(all[i as int]), attr_value(all[i as int]))));
            }
            i = i + 1;
        }
        assert(all.subrange(0, i as int) =~= all);
        Ok(TXTRecord { name: record.name().to_owned(), strs, attrs })
    }

    /// name returns the owner name.
    pub fn name(&self) -> (r: &str)
        ensures
            r@ == self.owner(),
    {
        self.name.as_str()
    }

    /// typ returns the type of the record.
    pub fn typ(&self) -> (r: Type)
        ensures
            r == Type::TXT,
    {
        Type::TXT
    }

    /// strings returns the character-strings of the TXT record.
    pub fn strings(&self) -> (r: &Vec<String>)
        ensures
            texts(r@) == self.texts(),
    {
        &self.strs
    }

    /// attributes returns the attributes, each key once.
    pub fn attributes(&self) -> (r: &Vec<(String, String)>)
        ensures
            pairs(r@) == self.attrs(),
    {
        &self.attrs
    }

    /// attribute returns the value of the attribute whose key equals `key`
    /// without regard to ASCII case.
    pub fn attribute(&self, key: &str) -> (r: Option<&String>)
        ensures
            r matches Some(v) ==> exists|i: int|
                0 <= i < self.attrs().len() && same_key(self.attrs()[i].0, key@) && self.attrs()[i].1
                    == v@,
            r is None ==> !has_key(self.attrs(), key@),
    {
        match find_key(&self.attrs, key) {
            Some(i) => {
                assert(self.attrs()[i as int].1 == self.attrs@[i as int].1@);
                Some(&self.attrs[i].1)
            },
            None => None,
        }
    }
}

} // verus!
