use vstd::prelude::*;
use vstd::slice::{slice_subrange, slice_to_vec};
use vstd::utf8::encode_utf8;

use crate::dns::class::{class_bits, class_word, unicast_bit, Class, CLASS_MASK, UNICAST_RESPONSE_MASK};
use crate::dns::error::{Error, ErrorKind};
use crate::dns::reader::Reader;
use crate::dns::typ::Type;
use crate::dns::wire::{be16, be32, name_at, u16_bytes, u32_bytes};
use crate::dns::writer::{name_fits, name_wire};

verus! {

/// What a record holds, as mathematical values.
pub struct RecordModel {
    pub name: Seq<char>,
    pub typ: Type,
    pub class: Class,
    pub unicast_response: bool,
    pub ttl: u32,
    pub data: Seq<u8>,
}

/// The question record at `pos`: name, type and CLASS word, and the offset
/// past it. A question carries no TTL and no data.
pub open spec fn question_at(buf: Seq<u8>, pos: int) -> Result<(RecordModel, int), ErrorKind> {
    match name_at(buf, pos) {
        Err(e) => Err(e),
        Ok((name, p)) => if p + 4 > buf.len() {
            Err(ErrorKind::ShortBuffer)
        } else {
            Ok(
                (
                    RecordModel {
                        name,
                        typ: Type::of_value(be16(buf, p)),
                        class: Class::of_value(class_bits(be16(buf, p + 2))),
                        unicast_response: unicast_bit(be16(buf, p + 2)),
                        ttl: 0,
                        data: seq![],
                    },
                    p + 4,
                ),
            )
        },
    }
}

/// The resource record at `pos`: a question followed by TTL, RDLENGTH and
/// exactly RDLENGTH bytes of RDATA, and the offset past it.
pub open spec fn resource_at(buf: Seq<u8>, pos: int) -> Result<(RecordModel, int), ErrorKind> {
    match question_at(buf, pos) {
        Err(e) => Err(e),
        Ok((q, p)) => if p + 6 > buf.len() {
            Err(ErrorKind::ShortBuffer)
        } else if p + 6 + be16(buf, p + 4) > buf.len() {
            Err(ErrorKind::ShortBuffer)
        } else {
            Ok(
                (
                    RecordModel {
                        ttl: be32(buf, p),
                        data: buf.subrange(p + 6, p + 6 + be16(buf, p + 4)),
                        ..q
                    },
                    p + 6 + be16(buf, p + 4),
                ),
            )
        },
    }
}

/// The record at `pos` in the request form or the resource form.
pub open spec fn record_at(buf: Seq<u8>, pos: int, resource: bool) -> Result<(RecordModel, int), ErrorKind> {
    if resource {
        resource_at(buf, pos)
    } else {
        question_at(buf, pos)
    }
}

/// The request form of a record: name, type, and CLASS word with the
/// unicast-response bit.
pub open spec fn question_wire(r: RecordModel) -> Seq<u8> {
    name_wire(encode_utf8(r.name)) + u16_bytes(r.typ.value()) + u16_bytes(
        class_word(r.class.value(), r.unicast_response),
    )
}

/// The response form of a record: the request form, TTL, and RDATA prefixed by
/// its 16-bit length.
pub open spec fn resource_wire(r: RecordModel) -> Seq<u8> {
    question_wire(r) + u32_bytes(r.ttl) + u16_bytes(r.data.len() as u16) + r.data
}

/// A record's request or response form.
pub open spec fn record_wire(r: RecordModel, resource: bool) -> Seq<u8> {
    if resource {
        resource_wire(r)
    } else {
        question_wire(r)
    }
}

/// Whether a record can be written: its name fits the label rules and, in the
/// response form, its RDATA length fits 16 bits.
pub open spec fn record_fits(r: RecordModel, resource: bool) -> bool {
    &&& name_fits(encode_utf8(r.name))
    &&& resource ==> r.data.len() <= 0xffff
}

/// A DNS record: owner name, type, class, unicast-response flag, TTL and RDATA.
/// A record read from a message also keeps that message, so that names inside
/// its RDATA can be decoded against it.
pub struct Record {
    name: String,
    data: Vec<u8>,
    typ: Type,
    cls: Class,
    unicast_response: bool,
    ttl: u32,
    origin: Vec<u8>,
    data_start: usize,
}

impl View for Record {
    type V = RecordModel;

    closed spec fn view(&self) -> RecordModel {
        RecordModel {
            name: self.name@,
            typ: self.typ,
            class: self.cls,
            unicast_response: self.unicast_response,
            ttl: self.ttl,
            data: self.data@,
        }
    }
}

impl Clone for Record {
    fn clone(&self) -> (r: Record)
        ensures
            r@ == self@,
            r.origin() == self.origin(),
            r.data_start() == self.data_start(),
    {
        let data = self.data.clone();
        let origin = self.origin.clone();
        assert(data@ =~= self.data@);
        assert(origin@ =~= self.origin@);
        Record {
            name: self.name.clone(),
            data,
            typ: self.typ,
            cls: self.cls,
            unicast_response: self.unicast_response,
            ttl: self.ttl,
            origin,
            data_start: self.data_start,
        }
    }
}

impl Record {
    /// The bytes against which names inside the RDATA are decoded: the whole
    /// message for a record read from one, else the RDATA itself.
    pub closed spec fn origin(&self) -> Seq<u8> {
        self.origin@
    }

    /// The offset of the RDATA within `origin`.
    pub closed spec fn data_start(&self) -> int {
        self.data_start as int
    }

    /// The bytes against which names inside the RDATA are decoded.
    pub(crate) fn message_bytes(&self) -> (r: &[u8])
        ensures
            r@ == self.origin(),
    {
        self.origin.as_slice()
    }

    /// The offset of the RDATA within `message_bytes`.
    pub(crate) fn data_offset(&self) -> (r: usize)
        ensures
            r == self.data_start(),
    {
        self.data_start
    }

    /// new creates an empty record.
    pub fn new() -> (r: Record)
        ensures
            r@ == (RecordModel {
                name: seq![],
                typ: Type::NONE,
                class: Class::NONE,
                unicast_response: false,
                ttl: 0,
                data: seq![],
            }),
            r.origin() == Seq::<u8>::empty(),
            r.data_start() == 0,
    {
        Record {
            name: String::new(),
            data: Vec::new(),
            typ: Type::NONE,
            cls: Class::NONE,
            unicast_response: false,
            ttl: 0,
            origin: Vec::new(),
            data_start: 0,
        }
    }

    /// set_name sets the name of the record.
    pub fn set_name(&mut self, name: &str)
        ensures
            final(self)@ == (RecordModel { name: name@, ..old(self)@ }),
            final(self).origin() == old(self).origin(),
            final(self).data_start() == old(self).data_start(),
    {
        self.name = name.to_owned();
    }

    /// name returns the name of the record.
    pub fn name(&self) -> (r: &str)
        ensures
            r@ == self@.name,
    {
        self.name.as_str()
    }

    /// set_typ sets the type of the record.
    pub fn set_typ(&mut self, typ: Type)
        ensures
            final(self)@ == (RecordModel { typ, ..old(self)@ }),
            final(self).origin() == old(self).origin(),
            final(self).data_start() == old(self).data_start(),
    {
        self.typ = typ;
    }

    /// typ returns the type of the record.
    pub fn typ(&self) -> (r: Type)
        ensures
            r == self@.typ,
    {
        self.typ
    }

    /// set_class sets the class of the record.
    pub fn set_class(&mut self, class: Class)
        ensures
            final(self)@ == (RecordModel { class, ..old(self)@ }),
            final(self).origin() == old(self).origin(),
            final(self).data_start() == old(self).data_start(),
    {
        self.cls = class;
    }

    /// class returns the class of the record.
    pub fn class(&self) -> (r: Class)
        ensures
            r == self@.class,
    {
        self.cls
    }

    /// set_data sets the RDATA; names inside it are then decoded against the
    /// RDATA alone.
    pub fn set_data(&mut self, data: Vec<u8>)
        ensures
            final(self)@ == (RecordModel { data: data@, ..old(self)@ }),
            final(self).origin() == data@,
            final(self).data_start() == 0,
    {
        let origin = data.clone();
        assert(origin@ =~= data@);
        self.origin = origin;
        self.data = data;
        self.data_start = 0;
    }

    /// data returns the RDATA of the record.
    pub fn data(&self) -> (r: &[u8])
        ensures
            r@ == self@.data,
    {
        self.data.as_slice()
    }

    /// set_unicast_response sets the unicast-response flag of the record.
    pub fn set_unicast_response(&mut self, unicast_response: bool)
        ensures
            final(self)@ == (RecordModel { unicast_response, ..old(self)@ }),
            final(self).origin() == old(self).origin(),
            final(self).data_start() == old(self).data_start(),
    {
        self.unicast_response = unicast_response;
    }

    /// unicast_response returns the unicast-response flag of the record.
    pub fn unicast_response(&self) -> (r: bool)
        ensures
            r == self@.unicast_response,
    {
        self.unicast_response
    }

    /// set_ttl sets the TTL of the record.
    pub fn set_ttl(&mut self, ttl: u32)
        ensures
            final(self)@ == (RecordModel { ttl, ..old(self)@ }),
            final(self).origin() == old(self).origin(),
            final(self).data_start() == old(self).data_start(),
    {
        self.ttl = ttl;
    }

    /// ttl returns the TTL of the record.
    pub fn ttl(&self) -> (r: u32)
        ensures
            r == self@.ttl,
    {
        self.ttl
    }

    /// parse_request_record reads a question record; see `question_at`.
    pub fn parse_request_record(&mut self, reader: &mut Reader) -> (r: Result<(), Error>)
        ensures
            final(reader).buf() == old(reader).buf(),
            r is Ok <==> question_at(old(reader).buf(), old(reader).pos()) is Ok,
            r is Ok ==> question_at(old(reader).buf(), old(reader).pos()) == Ok::<(RecordModel, int), ErrorKind>(
                (final(self)@, final(reader).pos()),
            ) && final(reader).pos() <= final(reader).buf().len(),
            r matches Err(e) ==> question_at(old(reader).buf(), old(reader).pos()) == Err::<(RecordModel, int), ErrorKind>(e.kind)
                && *final(self) == *old(self),
    {
        let name = match reader.read_name() {
            Ok(name) => name,
            Err(e) => return Err(e),
        };
        let typ = match reader.read_u16() {
            Ok(v) => v,
            Err(e) => return Err(e),
        };
        let cls = match reader.read_u16() {
            Ok(v) => v,
            Err(e) => return Err(e),
        };
        *self = Record {
            name,
            data: Vec::new(),
            typ: Type::from_value(typ),
            cls: Class::from_value(cls & CLASS_MASK),
            unicast_response: (cls & UNICAST_RESPONSE_MASK) != 0,
            ttl: 0,
            origin: Vec::new(),
            data_start: 0,
        };
        assert(self@.data =~= Seq::<u8>::empty());
        Ok(())
    }

    /// parse_resource_record reads a resource record; see `resource_at`. The
    /// record keeps the whole message, with the offset of its RDATA in it.
    pub fn parse_resource_record(&mut self, reader: &mut Reader) -> (r: Result<(), Error>)
        ensures
            final(reader).buf() == old(reader).buf(),
            r is Ok <==> resource_at(old(reader).buf(), old(reader).pos()) is Ok,
            r is Ok ==> resource_at(old(reader).buf(), old(reader).pos()) == Ok::<(RecordModel, int), ErrorKind>(
                (final(self)@, final(reader).pos()),
            ) && final(reader).pos() <= final(reader).buf().len() && final(self).origin()
                == old(reader).buf() && final(self).data_start() == final(reader).pos()
                - final(self)@.data.len(),
            r matches Err(e) ==> resource_at(old(reader).buf(), old(reader).pos()) == Err::<(RecordModel, int), ErrorKind>(e.kind)
                && *final(self) == *old(self),
    {
        let name = match reader.read_name() {
            Ok(name) => name,
            Err(e) => return Err(e),
        };
        let typ = match reader.read_u16() {
            Ok(v) => v,
            Err(e) => return Err(e),
        };
        let cls = match reader.read_u16() {
            Ok(v) => v,
            Err(e) => return Err(e),
        };
        let ttl = match reader.read_u32() {
            Ok(v) => v,
            Err(e) => return Err(e),
        };
        let data_len = match reader.read_u16() {
            Ok(v) => v,
            Err(e) => return Err(e),
        };
        let buf = reader.buffer();
        let start = reader.offset();
        if start > buf.len() || buf.len() - start < data_len as usize {
            return Err(Error::from_bytes(buf, start));
        }
        let data = slice_to_vec(slice_subrange(buf, start, start + data_len as usize));
        reader.set_offset(start + data_len as usize);
        *self = Record {
            name,
            data,
            typ: Type::from_value(typ),
            cls: Class::from_value(cls & CLASS_MASK),
            unicast_response: (cls & UNICAST_RESPONSE_MASK) != 0,
            ttl,
            origin: slice_to_vec(buf),
            data_start: start,
        };
        Ok(())
    }
}

} // verus!
