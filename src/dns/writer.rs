use vstd::prelude::*;
use vstd::slice::slice_subrange;
use vstd::string::StringSliceAdditionalSpecFns;

use crate::dns::class::{class_word, Class, UNICAST_RESPONSE_MASK};
use crate::dns::error::{Error, ErrorKind};
use crate::dns::record::{question_wire, record_fits, resource_wire, Record};
use crate::dns::typ::Type;
use crate::dns::wire::{find_byte, u16_bytes, u32_bytes, DOT, MAX_LABEL_LEN};

verus! {

/// The offset of the first dot at or after `i`, or the length of `b`.
pub open spec fn next_dot(b: Seq<u8>, i: int) -> int {
    find_byte(b, i, DOT)
}

/// Whether every label of `b` from offset `i` on is 1 to 63 bytes long.
pub open spec fn labels_fit(b: Seq<u8>, i: int) -> bool
    decreases b.len() - i,
{
    let j = next_dot(b, i);
    &&& 1 <= j - i <= MAX_LABEL_LEN
    &&& j < b.len() ==> labels_fit(b, j + 1)
}

/// The labels of `b` from offset `i` on, each prefixed by its length, then the
/// terminating zero octet.
pub open spec fn labels_wire(b: Seq<u8>, i: int) -> Seq<u8>
    decreases b.len() - i,
{
    let j = next_dot(b, i);
    if j <= i || j > b.len() {
        seq![0u8]
    } else if j == b.len() {
        seq![(j - i) as u8] + b.subrange(i, j) + seq![0u8]
    } else {
        seq![(j - i) as u8] + b.subrange(i, j) + labels_wire(b, j + 1)
    }
}

/// Whether the name with bytes `b` can be written: the empty (root) name, or
/// dot-separated labels of 1 to 63 bytes.
pub open spec fn name_fits(b: Seq<u8>) -> bool {
    b.len() == 0 || labels_fit(b, 0)
}

/// The uncompressed wire form of the name with bytes `b`.
pub open spec fn name_wire(b: Seq<u8>) -> Seq<u8> {
    if b.len() == 0 {
        seq![0u8]
    } else {
        labels_wire(b, 0)
    }
}

/// Appends the bytes of `src` to `dst`.
fn append_slice(dst: &mut Vec<u8>, src: &[u8])
    ensures
        final(dst)@ == old(dst)@ + src@,
{
    let n = src.len();
    let mut i: usize = 0;
    while i < n
        invariant
            i <= n,
            n == src@.len(),
            dst@ == old(dst)@ + src@.subrange(0, i as int),
        decreases n - i,
    {
        dst.push(src[i]);
        i = i + 1;
        assert(dst@ =~= old(dst)@ + src@.subrange(0, i as int));
    }
    assert(src@.subrange(0, n as int) =~= src@);
}

/// A growing buffer of DNS wire bytes.
pub struct Writer {
    buffer: Vec<u8>,
}

impl Writer {
    /// The bytes written so far.
    pub closed spec fn bytes(&self) -> Seq<u8> {
        self.buffer@
    }

    /// new creates a new, empty writer.
    pub fn new() -> (r: Writer)
        ensures
            r.bytes() == Seq::<u8>::empty(),
    {
        Writer { buffer: Vec::new() }
    }

    /// write_u8 writes a byte.
    pub fn write_u8(&mut self, value: u8) -> (r: Result<(), Error>)
        ensures
            r is Ok,
            final(self).bytes() == old(self).bytes().push(value),
    {
        self.buffer.push(value);
        Ok(())
    }

    /// write_u16 writes a big-endian 16-bit integer.
    pub fn write_u16(&mut self, value: u16) -> (r: Result<(), Error>)
        ensures
            r is Ok,
            final(self).bytes() == old(self).bytes() + u16_bytes(value),
    {
        self.buffer.push((value / 256) as u8);
        self.buffer.push((value % 256) as u8);
        assert(self.buffer@ =~= old(self).buffer@ + u16_bytes(value));
        Ok(())
    }

    /// write_u32 writes a big-endian 32-bit integer.
    pub fn write_u32(&mut self, value: u32) -> (r: Result<(), Error>)
        ensures
            r is Ok,
            final(self).bytes() == old(self).bytes() + u32_bytes(value),
    {
        self.buffer.push((value / 0x1000000) as u8);
        self.buffer.push((value / 0x10000 % 256) as u8);
        self.buffer.push((value / 256 % 256) as u8);
        self.buffer.push((value % 256) as u8);
        assert(self.buffer@ =~= old(self).buffer@ + u32_bytes(value));
        Ok(())
    }

    /// write_bytes writes the bytes as they are.
    pub fn write_bytes(&mut self, bytes: &[u8]) -> (r: Result<(), Error>)
        ensures
            r is Ok,
            final(self).bytes() == old(self).bytes() + bytes@,
    {
        append_slice(&mut self.buffer, bytes);
        Ok(())
    }

    /// write_header writes the header bytes as they are.
    pub fn write_header(&mut self, header: &[u8]) -> (r: Result<(), Error>)
        ensures
            r is Ok,
            final(self).bytes() == old(self).bytes() + header@,
    {
        self.write_bytes(header)
    }

    /// write_type writes the wire value of a type.
    pub fn write_type(&mut self, typ: Type) -> (r: Result<(), Error>)
        ensures
            r is Ok,
            final(self).bytes() == old(self).bytes() + u16_bytes(typ.value()),
    {
        self.write_u16(typ.to_value())
    }

    /// write_class writes the wire value of a class.
    pub fn write_class(&mut self, class: Class) -> (r: Result<(), Error>)
        ensures
            r is Ok,
            final(self).bytes() == old(self).bytes() + u16_bytes(class.value()),
    {
        self.write_u16(class.to_value())
    }

    /// write_ttl writes a TTL.
    pub fn write_ttl(&mut self, ttl: u32) -> (r: Result<(), Error>)
        ensures
            r is Ok,
            final(self).bytes() == old(self).bytes() + u32_bytes(ttl),
    {
        self.write_u32(ttl)
    }

    /// write_data writes RDATA prefixed by its 16-bit length; longer data
    /// cannot be written.
    pub fn write_data(&mut self, data: &[u8]) -> (r: Result<(), Error>)
        ensures
            r is Ok <==> data@.len() <= 0xffff,
            r is Ok ==> final(self).bytes() == old(self).bytes() + u16_bytes(data@.len() as u16)
                + data@,
            r matches Err(e) ==> e.kind == ErrorKind::Encode && final(self).bytes() == old(
                self,
            ).bytes(),
    {
        let len = data.len();
        if len > 0xffff {
            return Err(Error::with_kind(ErrorKind::Encode, data, 0));
        }
        let _ = self.write_u16(len as u16);
        self.write_bytes(data)
    }

    /// write_name writes a domain name as uncompressed labels followed by a
    /// zero octet. A name with an empty label or a label longer than 63 bytes
    /// cannot be written.
    pub fn write_name(&mut self, name: &str) -> (r: Result<(), Error>)
        ensures
            r is Ok <==> name_fits(name.spec_bytes()),
            r is Ok ==> final(self).bytes() == old(self).bytes() + name_wire(name.spec_bytes()),
            r matches Err(e) ==> e.kind == ErrorKind::Encode && final(self).bytes() == old(
                self,
            ).bytes(),
    {
        let b = name.as_bytes();
        let n = b.len();
        if n == 0 {
            self.buffer.push(0);
            assert(self.buffer@ =~= old(self).buffer@ + name_wire(name.spec_bytes()));
            return Ok(());
        }
        let mut out: Vec<u8> = Vec::new();
        let mut i: usize = 0;
        loop
            invariant_except_break
                out@ + labels_wire(b@, i as int) == labels_wire(b@, 0),
                labels_fit(b@, 0) <==> labels_fit(b@, i as int),
            invariant
                n == b@.len(),
                b@ == name.spec_bytes(),
                n > 0,
                i <= n,
                self.buffer@ == old(self).buffer@,
            ensures
                out@ == labels_wire(b@, 0),
                labels_fit(b@, 0),
            decreases n - i,
        {
            let mut j: usize = i;
            while j < n && b[j] != DOT
                invariant
                    n == b@.len(),
                    i <= j <= n,
                    next_dot(b@, i as int) == next_dot(b@, j as int),
                decreases n - j,
            {
                j = j + 1;
            }
            assert(next_dot(b@, j as int) == j);
            let len = j - i;
            if len == 0 || len > MAX_LABEL_LEN {
                assert(!labels_fit(b@, i as int));
                return Err(Error::with_kind(ErrorKind::Encode, b, i));
            }
            let ghost before = out@;
            out.push(len as u8);
            append_slice(&mut out, slice_subrange(b, i, j));
            if j == n {
                out.push(0);
                assert(out@ =~= before + labels_wire(b@, i as int));
                assert(labels_fit(b@, i as int));
                break;
            }
            assert(out@ + labels_wire(b@, j + 1) =~= before + labels_wire(b@, i as int));
            i = j + 1;
        }
        append_slice(&mut self.buffer, out.as_slice());
        Ok(())
    }

    /// write_request_record writes the request form of a record; see
    /// `question_wire`.
    pub fn write_request_record(&mut self, record: &Record) -> (r: Result<(), Error>)
        ensures
            r is Ok <==> record_fits(record@, false),
            r is Ok ==> final(self).bytes() == old(self).bytes() + question_wire(record@),
            r matches Err(e) ==> e.kind == ErrorKind::Encode && final(self).bytes() == old(
                self,
            ).bytes(),
    {
        match self.write_name(record.name()) {
            Ok(()) => {},
            Err(e) => return Err(e),
        }
        let _ = self.write_type(record.typ());
        let mut cls = record.class().to_value();
        if record.unicast_response() {
            cls = cls | UNICAST_RESPONSE_MASK;
        }
        assert(cls == class_word(record@.class.value(), record@.unicast_response));
        let _ = self.write_u16(cls);
        assert(self.buffer@ =~= old(self).buffer@ + question_wire(record@));
        Ok(())
    }

    /// write_response_record writes the response form of a record; see
    /// `resource_wire`.
    pub fn write_response_record(&mut self, record: &Record) -> (r: Result<(), Error>)
        ensures
            r is Ok <==> record_fits(record@, true),
            r is Ok ==> final(self).bytes() == old(self).bytes() + resource_wire(record@),
            r matches Err(e) ==> e.kind == ErrorKind::Encode && final(self).bytes() == old(
                self,
            ).bytes(),
    {
        if record.data().len() > 0xffff {
            return Err(Error::with_kind(ErrorKind::Encode, record.data(), 0));
        }
        match self.write_request_record(record) {
            Ok(()) => {},
            Err(e) => return Err(e),
        }
        let _ = self.write_ttl(record.ttl());
        let _ = self.write_data(record.data());
        assert(self.buffer@ =~= old(self).buffer@ + resource_wire(record@));
        Ok(())
    }

    /// to_bytes returns a copy of the bytes written so far.
    pub fn to_bytes(&self) -> (r: Vec<u8>)
        ensures
            r@ == self.bytes(),
    {
        let r = self.buffer.clone();
        assert(r@ =~= self.buffer@);
        r
    }
}

} // verus!
