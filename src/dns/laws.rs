//! Properties that relate the writer and the reader: what is written reads
//! back as it was.
use vstd::prelude::*;
use vstd::utf8::{encode_utf8, encode_utf8_decode_utf8, encode_utf8_valid_utf8};

use crate::dns::class::lemma_class_word_split;
use crate::dns::error::ErrorKind;
use crate::dns::message::{
    header_wire, message_fits, message_wire, parse_message, records_at, records_wire, MessageModel,
    HEADER_SIZE,
};
use crate::dns::record::{question_wire, record_at, record_fits, record_wire, RecordModel};
use crate::dns::text::lemma_find_byte_bounds;
use crate::dns::wire::{be16, be32, name_at, name_bytes_at, u16_bytes, u32_bytes, DOT, MAX_POINTERS};
use crate::dns::writer::{labels_fit, labels_wire, name_fits, name_wire, next_dot};

verus! {

/// A piece of bytes written at `p` lies at `p` plus its offset.
proof fn lemma_piece(buf: Seq<u8>, p: int, w: Seq<u8>, a: int, b: int)
    requires
        0 <= p,
        p + w.len() <= buf.len(),
        buf.subrange(p, p + w.len()) == w,
        0 <= a <= b <= w.len(),
    ensures
        buf.subrange(p + a, p + b) == w.subrange(a, b),
{
    assert(buf.subrange(p + a, p + b) =~= w.subrange(a, b)) by {
        assert forall|k: int| 0 <= k < b - a implies buf.subrange(p + a, p + b)[k] == w.subrange(
            a,
            b,
        )[k] by {
            assert(buf[p + a + k] == buf.subrange(p, p + w.len())[a + k]);
        }
    }
}

/// A 16-bit integer reads back from its big-endian bytes.
proof fn lemma_u16_bytes(buf: Seq<u8>, p: int, v: u16)
    requires
        0 <= p,
        p + 2 <= buf.len(),
        buf.subrange(p, p + 2) == u16_bytes(v),
    ensures
        be16(buf, p) == v,
{
    assert(buf[p] == buf.subrange(p, p + 2)[0]);
    assert(buf[p + 1] == buf.subrange(p, p + 2)[1]);
    assert((v / 256) as u8 as int * 256 + (v % 256) as u8 as int == v);
}

/// A 32-bit integer reads back from its big-endian bytes.
proof fn lemma_u32_bytes(buf: Seq<u8>, p: int, v: u32)
    requires
        0 <= p,
        p + 4 <= buf.len(),
        buf.subrange(p, p + 4) == u32_bytes(v),
    ensures
        be32(buf, p) == v,
{
    let s = buf.subrange(p, p + 4);
    assert(buf[p] == s[0]);
    assert(buf[p + 1] == s[1]);
    assert(buf[p + 2] == s[2]);
    assert(buf[p + 3] == s[3]);
    assert((((v / 0x1000000) as u8 as int * 256 + (v / 0x10000 % 256) as u8 as int) * 256 + (v
        / 256 % 256) as u8 as int) * 256 + (v % 256) as u8 as int == v);
}

/// The labels of `b` from offset `i`, written uncompressed at `p` of `buf`,
/// read back as the bytes of `b` from `i` on.
proof fn lemma_labels_read(buf: Seq<u8>, p: int, b: Seq<u8>, i: int, fuel: nat)
    requires
        0 <= i <= b.len(),
        labels_fit(b, i),
        0 <= p,
        p + labels_wire(b, i).len() <= buf.len(),
        buf.subrange(p, p + labels_wire(b, i).len()) == labels_wire(b, i),
    ensures
        name_bytes_at(buf, p, fuel) == Ok::<(Seq<u8>, int), ErrorKind>(
            (b.subrange(i, b.len() as int), p + labels_wire(b, i).len()),
        ),
    decreases b.len() - i,
{
    let j = next_dot(b, i);
    lemma_find_byte_bounds(b, i, DOT);
    let w = labels_wire(b, i);
    let n: int = j - i;
    assert(buf[p] == w[0]);
    assert(buf[p] == n as u8);
    assert(buf.subrange(p + 1, p + 1 + n) =~= b.subrange(i, j)) by {
        assert forall|k: int| 0 <= k < n implies buf.subrange(p + 1, p + 1 + n)[k] == b.subrange(i, j)[k] by {
            assert(buf[p + 1 + k] == w[1 + k]);
        }
    }
    if j == b.len() {
        assert(w.len() == n + 2);
        assert(buf[p + 1 + n] == w[n + 1]);
        assert(name_bytes_at(buf, p + 1 + n, fuel) == Ok::<(Seq<u8>, int), ErrorKind>((Seq::<u8>::empty(), p + 2 + n)));
    } else {
        let rest = labels_wire(b, j + 1);
        assert(w =~= seq![n as u8] + b.subrange(i, j) + rest);
        assert(buf.subrange(p + 1 + n, p + 1 + n + rest.len()) =~= rest) by {
            assert forall|k: int| 0 <= k < rest.len() implies buf.subrange(p + 1 + n, p + 1 + n + rest.len())[k] == rest[k] by {
                assert(buf[p + 1 + n + k] == w[1 + n + k]);
            }
        }
        lemma_labels_read(buf, p + 1 + n, b, j + 1, fuel);
        lemma_find_byte_bounds(b, j + 1, DOT);
        assert(b.subrange(j + 1, b.len() as int).len() > 0);
        assert(b.subrange(i, j) + seq![DOT] + b.subrange(j + 1, b.len() as int) =~= b.subrange(i, b.len() as int));
    }
}

/// Decoding is the inverse of encoding as uncompressed labels: a name whose
/// labels are 1 to 63 bytes long, written without compression at offset `p`
/// of any buffer, reads back as the same name, ending just past what was
/// written.
pub proof fn lemma_name_read(buf: Seq<u8>, p: int, name: Seq<char>)
    requires
        name_fits(encode_utf8(name)),
        0 <= p,
        p + name_wire(encode_utf8(name)).len() <= buf.len(),
        buf.subrange(p, p + name_wire(encode_utf8(name)).len()) == name_wire(encode_utf8(name)),
    ensures
        name_at(buf, p) == Ok::<(Seq<char>, int), ErrorKind>(
            (name, p + name_wire(encode_utf8(name)).len()),
        ),
{
    let b = encode_utf8(name);
    encode_utf8_decode_utf8(name);
    encode_utf8_valid_utf8(name);
    if b.len() == 0 {
        assert(buf[p] == name_wire(b)[0]);
        assert(b =~= Seq::<u8>::empty());
    } else {
        lemma_labels_read(buf, p, b, 0, MAX_POINTERS as nat);
        assert(b.subrange(0, b.len() as int) =~= b);
    }
}

/// Name decoding undoes uncompressed encoding: `decode(encode(n)) == n` for
/// every name whose labels are 1 to 63 bytes long.
pub proof fn lemma_name_round_trip(name: Seq<char>)
    requires
        name_fits(encode_utf8(name)),
    ensures
        name_at(name_wire(encode_utf8(name)), 0) == Ok::<(Seq<char>, int), ErrorKind>(
            (name, name_wire(encode_utf8(name)).len() as int),
        ),
{
    let w = name_wire(encode_utf8(name));
    assert(w.subrange(0, w.len() as int) =~= w);
    lemma_name_read(w, 0, name);
}

/// A writable record, written at offset `p` of any buffer, reads back as the
/// same record. A question carries no TTL and no data.
proof fn lemma_record_read(buf: Seq<u8>, p: int, r: RecordModel, resource: bool)
    requires
        record_fits(r, resource),
        !resource ==> r.ttl == 0 && r.data.len() == 0,
        0 <= p,
        p + record_wire(r, resource).len() <= buf.len(),
        buf.subrange(p, p + record_wire(r, resource).len()) == record_wire(r, resource),
    ensures
        record_at(buf, p, resource) == Ok::<(RecordModel, int), ErrorKind>(
            (r, p + record_wire(r, resource).len()),
        ),
{
    let w = record_wire(r, resource);
    let nw = name_wire(encode_utf8(r.name));
    let n: int = nw.len() as int;
    let q: int = p + n;
    let cw = crate::dns::class::class_word(r.class.value(), r.unicast_response);
    let tb = u16_bytes(r.typ.value());
    let cb = u16_bytes(cw);
    assert(question_wire(r) == nw + tb + cb);
    assert(w.subrange(0, n) =~= nw);
    assert(w.subrange(n, n + 2) =~= tb);
    assert(w.subrange(n + 2, n + 4) =~= cb);
    lemma_piece(buf, p, w, 0, n);
    lemma_name_read(buf, p, r.name);
    lemma_piece(buf, p, w, n, n + 2);
    lemma_u16_bytes(buf, q, r.typ.value());
    lemma_piece(buf, p, w, n + 2, n + 4);
    lemma_u16_bytes(buf, q + 2, cw);
    r.typ.lemma_value_round_trip();
    lemma_class_word_split(r.class, r.unicast_response);
    if resource {
        let tt = u32_bytes(r.ttl);
        let lb = u16_bytes(r.data.len() as u16);
        assert(w == question_wire(r) + tt + lb + r.data);
        assert(w.subrange(n + 4, n + 8) =~= tt);
        assert(w.subrange(n + 8, n + 10) =~= lb);
        assert(w.subrange(n + 10, n + 10 + r.data.len()) =~= r.data);
        lemma_piece(buf, p, w, n + 4, n + 8);
        lemma_u32_bytes(buf, q + 4, r.ttl);
        lemma_piece(buf, p, w, n + 8, n + 10);
        lemma_u16_bytes(buf, q + 8, r.data.len() as u16);
        lemma_piece(buf, p, w, n + 10, n + 10 + r.data.len());
    } else {
        assert(r.data =~= Seq::<u8>::empty());
    }
}

/// Writable records, written one after another at offset `p` of any buffer,
/// read back as the same records.
proof fn lemma_records_read(buf: Seq<u8>, p: int, rs: Seq<RecordModel>, resource: bool)
    requires
        forall|i: int| 0 <= i < rs.len() ==> record_fits(#[trigger] rs[i], resource),
        !resource ==> forall|i: int| 0 <= i < rs.len() ==> (#[trigger] rs[i]).ttl == 0 && rs[i].data.len() == 0,
        0 <= p,
        p + records_wire(rs, resource).len() <= buf.len(),
        buf.subrange(p, p + records_wire(rs, resource).len()) == records_wire(rs, resource),
    ensures
        records_at(buf, p, rs.len(), resource) == Ok::<(Seq<RecordModel>, int), ErrorKind>(
            (rs, p + records_wire(rs, resource).len()),
        ),
    decreases rs.len(),
{
    if rs.len() > 0 {
        let init = rs.drop_last();
        let last = rs.last();
        let wi = records_wire(init, resource);
        let wl = record_wire(last, resource);
        let w = records_wire(rs, resource);
        assert(w == wi + wl);
        assert(w.subrange(0, wi.len() as int) =~= wi);
        assert(w.subrange(wi.len() as int, w.len() as int) =~= wl);
        lemma_piece(buf, p, w, 0, wi.len() as int);
        lemma_piece(buf, p, w, wi.len() as int, w.len() as int);
        assert(forall|i: int| 0 <= i < init.len() ==> init[i] == rs[i]);
        lemma_records_read(buf, p, init, resource);
        assert(record_fits(rs[rs.len() - 1], resource));
        lemma_record_read(buf, p + wi.len(), last, resource);
        assert(init.push(last) =~= rs);
    } else {
        assert(rs =~= Seq::<RecordModel>::empty());
    }
}

/// The header words read back from a written header.
proof fn lemma_header_read(buf: Seq<u8>, m: MessageModel)
    requires
        HEADER_SIZE <= buf.len(),
        buf.subrange(0, 12) == header_wire(m),
    ensures
        be16(buf, 0) == m.id,
        be16(buf, 2) == m.flags,
        be16(buf, 4) == m.qd_count,
        be16(buf, 6) == m.an_count,
        be16(buf, 8) == m.ns_count,
        be16(buf, 10) == m.ar_count,
{
    let h = header_wire(m);
    reveal(header_wire);
    assert(h.subrange(0, 2) =~= u16_bytes(m.id));
    assert(h.subrange(2, 4) =~= u16_bytes(m.flags));
    assert(h.subrange(4, 6) =~= u16_bytes(m.qd_count));
    assert(h.subrange(6, 8) =~= u16_bytes(m.an_count));
    assert(h.subrange(8, 10) =~= u16_bytes(m.ns_count));
    assert(h.subrange(10, 12) =~= u16_bytes(m.ar_count));
    lemma_piece(buf, 0, h, 0, 2);
    lemma_piece(buf, 0, h, 2, 4);
    lemma_piece(buf, 0, h, 4, 6);
    lemma_piece(buf, 0, h, 6, 8);
    lemma_piece(buf, 0, h, 8, 10);
    lemma_piece(buf, 0, h, 10, 12);
    lemma_u16_bytes(buf, 0, m.id);
    lemma_u16_bytes(buf, 2, m.flags);
    lemma_u16_bytes(buf, 4, m.qd_count);
    lemma_u16_bytes(buf, 6, m.an_count);
    lemma_u16_bytes(buf, 8, m.ns_count);
    lemma_u16_bytes(buf, 10, m.ar_count);
}

/// The two parts of a concatenation.
proof fn lemma_halves(a: Seq<u8>, b: Seq<u8>)
    ensures
        (a + b).subrange(0, a.len() as int) == a,
        (a + b).subrange(a.len() as int, (a + b).len() as int) == b,
{
    assert((a + b).subrange(0, a.len() as int) =~= a);
    assert((a + b).subrange(a.len() as int, (a + b).len() as int) =~= b);
}

/// Parsing a serialized message gives the message back: header words, count
/// fields and the records of every section, in order. It holds for every
/// message that can be written (each count equal to the length of its
/// section, names of labels 1 to 63 bytes long, RDATA of at most 65535
/// bytes) whose questions carry no TTL and no data, as questions read from
/// the wire never do.
#[verifier::rlimit(60)]
pub proof fn lemma_message_round_trip(m: MessageModel)
    requires
        message_fits(m),
        forall|i: int| 0 <= i < m.questions.len() ==> (#[trigger] m.questions[i]).ttl == 0
            && m.questions[i].data.len() == 0,
    ensures
        parse_message(message_wire(m)) == Ok::<MessageModel, ErrorKind>(m),
{
    let buf = message_wire(m);
    let h = header_wire(m);
    assert(h.len() == HEADER_SIZE) by {
        reveal(header_wire);
    }
    let wq = records_wire(m.questions, false);
    let wa = records_wire(m.answers, true);
    let wn = records_wire(m.authorities, true);
    let wr = records_wire(m.additionals, true);
    let s1 = h + wq;
    let s2 = s1 + wa;
    let s3 = s2 + wn;
    assert(buf == s3 + wr);
    let an_at: int = s1.len() as int;
    let ns_at: int = s2.len() as int;
    let ar_at: int = s3.len() as int;
    assert(buf.len() == ar_at + wr.len());
    assert(buf.subrange(0, ar_at) == s3 && buf.subrange(ar_at, buf.len() as int) == wr) by {
        lemma_halves(s3, wr);
    }
    assert(buf.subrange(0, ns_at) == s2 && buf.subrange(ns_at, ar_at) == wn) by {
        lemma_halves(s2, wn);
        lemma_piece(buf, 0, s3, 0, ns_at);
        lemma_piece(buf, 0, s3, ns_at, ar_at);
    }
    assert(buf.subrange(0, an_at) == s1 && buf.subrange(an_at, ns_at) == wa) by {
        lemma_halves(s1, wa);
        lemma_piece(buf, 0, s2, 0, an_at);
        lemma_piece(buf, 0, s2, an_at, ns_at);
    }
    assert(buf.subrange(0, 12) == h && buf.subrange(12, an_at) == wq) by {
        lemma_halves(h, wq);
        lemma_piece(buf, 0, s1, 0, 12);
        lemma_piece(buf, 0, s1, 12, an_at);
    }
    lemma_sections_read(buf, m, an_at, ns_at, ar_at);
}

/// A buffer that holds a message's header and sections at the given offsets
/// parses as that message.
proof fn lemma_sections_read(buf: Seq<u8>, m: MessageModel, an_at: int, ns_at: int, ar_at: int)
    requires
        message_fits(m),
        forall|i: int| 0 <= i < m.questions.len() ==> (#[trigger] m.questions[i]).ttl == 0
            && m.questions[i].data.len() == 0,
        12 <= an_at <= ns_at <= ar_at,
        an_at == 12 + records_wire(m.questions, false).len(),
        ns_at == an_at + records_wire(m.answers, true).len(),
        ar_at == ns_at + records_wire(m.authorities, true).len(),
        ar_at + records_wire(m.additionals, true).len() <= buf.len(),
        buf.subrange(0, 12) == header_wire(m),
        buf.subrange(12, an_at) == records_wire(m.questions, false),
        buf.subrange(an_at, ns_at) == records_wire(m.answers, true),
        buf.subrange(ns_at, ar_at) == records_wire(m.authorities, true),
        buf.subrange(ar_at, ar_at + records_wire(m.additionals, true).len()) == records_wire(m.additionals, true),
    ensures
        parse_message(buf) == Ok::<MessageModel, ErrorKind>(m),
{
    lemma_header_read(buf, m);
    lemma_records_read(buf, 12, m.questions, false);
    lemma_records_read(buf, an_at, m.answers, true);
    lemma_records_read(buf, ns_at, m.authorities, true);
    lemma_records_read(buf, ar_at, m.additionals, true);
    lemma_parse_parts(buf, m, an_at, ns_at, ar_at);
}

/// A message parses from its header words and its four sections read in turn.
proof fn lemma_parse_parts(buf: Seq<u8>, m: MessageModel, an_at: int, ns_at: int, ar_at: int)
    requires
        HEADER_SIZE <= buf.len(),
        be16(buf, 0) == m.id,
        be16(buf, 2) == m.flags,
        be16(buf, 4) == m.qd_count,
        be16(buf, 6) == m.an_count,
        be16(buf, 8) == m.ns_count,
        be16(buf, 10) == m.ar_count,
        m.qd_count == m.questions.len(),
        m.an_count == m.answers.len(),
        m.ns_count == m.authorities.len(),
        m.ar_count == m.additionals.len(),
        records_at(buf, 12, m.questions.len(), false) == Ok::<(Seq<RecordModel>, int), ErrorKind>((m.questions, an_at)),
        records_at(buf, an_at, m.answers.len(), true) == Ok::<(Seq<RecordModel>, int), ErrorKind>((m.answers, ns_at)),
        records_at(buf, ns_at, m.authorities.len(), true) == Ok::<(Seq<RecordModel>, int), ErrorKind>((m.authorities, ar_at)),
        records_at(buf, ar_at, m.additionals.len(), true) matches Ok((rs, _)) && rs == m.additionals,
    ensures
        parse_message(buf) == Ok::<MessageModel, ErrorKind>(m),
{
}

} // verus!
