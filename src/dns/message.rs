use vstd::prelude::*;

use crate::dns::error::{Error, ErrorKind};
use crate::dns::reader::Reader;
use crate::dns::resource_record::{collect_views, views_of, ResourceRecord};
use crate::dns::text::{append, same_text};
use crate::dns::record::{record_at, record_fits, record_wire, Record, RecordModel};
use crate::dns::wire::{be16, u16_bytes};
use crate::dns::writer::Writer;

verus! {

/// The size of the fixed message header.
pub const HEADER_SIZE: usize = 12;

/// QR represents the query type.
#[derive(Debug, Clone, Copy, PartialEq, Eq, Structural)]
pub enum QR {
    Query,
    Response,
}

/// Opcode represents the kind of query.
#[derive(Debug, Clone, Copy, PartialEq, Eq, Structural)]
pub enum Opcode {
    Query,
    IQuery,
    Status,
}

/// ResponseCode represents the response code.
#[derive(Debug, Clone, Copy, PartialEq, Eq, Structural)]
pub enum ResponseCode {
    NoError,
    FormatError,
    ServerFailure,
    NameError,
    NotImplemented,
    Refused,
}

/// What a message holds, as mathematical values: the header words and the
/// records of the four sections.
pub struct MessageModel {
    pub id: u16,
    pub flags: u16,
    pub qd_count: u16,
    pub an_count: u16,
    pub ns_count: u16,
    pub ar_count: u16,
    pub questions: Seq<RecordModel>,
    pub answers: Seq<RecordModel>,
    pub authorities: Seq<RecordModel>,
    pub additionals: Seq<RecordModel>,
}

/// The models of a sequence of records.
pub open spec fn models(rs: Seq<Record>) -> Seq<RecordModel> {
    rs.map_values(|r: Record| r@)
}

/// `n` records read one after another from `pos`, and the offset past them.
pub open spec fn records_at(buf: Seq<u8>, pos: int, n: nat, resource: bool) -> Result<(Seq<RecordModel>, int), ErrorKind>
    decreases n,
{
    if n == 0 {
        Ok((seq![], pos))
    } else {
        match records_at(buf, pos, (n - 1) as nat, resource) {
            Err(e) => Err(e),
            Ok((rs, p)) => match record_at(buf, p, resource) {
                Err(e) => Err(e),
                Ok((r, q)) => Ok((rs.push(r), q)),
            },
        }
    }
}

/// The message in `buf`: the 12-byte header, then as many questions, answers,
/// authorities and additionals as its counts say. Bytes after them are
/// ignored.
pub open spec fn parse_message(buf: Seq<u8>) -> Result<MessageModel, ErrorKind> {
    if buf.len() < HEADER_SIZE {
        Err(ErrorKind::ShortBuffer)
    } else {
        let qd = be16(buf, 4);
        let an = be16(buf, 6);
        let ns = be16(buf, 8);
        let ar = be16(buf, 10);
        match records_at(buf, HEADER_SIZE as int, qd as nat, false) {
            Err(e) => Err(e),
            Ok((qs, an_at)) => match records_at(buf, an_at, an as nat, true) {
                Err(e) => Err(e),
                Ok((ans, ns_at)) => match records_at(buf, ns_at, ns as nat, true) {
                    Err(e) => Err(e),
                    Ok((nss, ar_at)) => match records_at(buf, ar_at, ar as nat, true) {
                        Err(e) => Err(e),
                        Ok((ars, _)) => Ok(
                            MessageModel {
                                id: be16(buf, 0),
                                flags: be16(buf, 2),
                                qd_count: qd,
                                an_count: an,
                                ns_count: ns,
                                ar_count: ar,
                                questions: qs,
                                answers: ans,
                                authorities: nss,
                                additionals: ars,
                            },
                        ),
                    },
                },
            },
        }
    }
}

/// The records written one after another.
pub open spec fn records_wire(rs: Seq<RecordModel>, resource: bool) -> Seq<u8>
    decreases rs.len(),
{
    if rs.len() == 0 {
        seq![]
    } else {
        records_wire(rs.drop_last(), resource) + record_wire(rs.last(), resource)
    }
}

/// The header words, big-endian.
#[verifier::opaque]
pub open spec fn header_wire(m: MessageModel) -> Seq<u8> {
    u16_bytes(m.id) + u16_bytes(m.flags) + u16_bytes(m.qd_count) + u16_bytes(m.an_count)
        + u16_bytes(m.ns_count) + u16_bytes(m.ar_count)
}

/// The wire form of a message: header, questions in request form, and the
/// other sections in response form.
pub open spec fn message_wire(m: MessageModel) -> Seq<u8> {
    header_wire(m) + records_wire(m.questions, false) + records_wire(m.answers, true)
        + records_wire(m.authorities, true) + records_wire(m.additionals, true)
}

/// Whether every record can be written in the given form.
pub open spec fn records_fit(rs: Seq<RecordModel>, resource: bool) -> bool {
    forall|i: int| 0 <= i < rs.len() ==> record_fits(#[trigger] rs[i], resource)
}

/// Whether a message can be written: each count equals the length of its
/// section, and every record can be written.
pub open spec fn message_fits(m: MessageModel) -> bool {
    &&& m.qd_count == m.questions.len()
    &&& m.an_count == m.answers.len()
    &&& m.ns_count == m.authorities.len()
    &&& m.ar_count == m.additionals.len()
    &&& records_fit(m.questions, false)
    &&& records_fit(m.answers, true)
    &&& records_fit(m.authorities, true)
    &&& records_fit(m.additionals, true)
}

/// The first record named `name` in `rs`, by index.
pub open spec fn first_named(rs: Seq<Record>, name: Seq<char>, i: int) -> bool {
    &&& 0 <= i < rs.len()
    &&& rs[i]@.name == name
    &&& forall|j: int| 0 <= j < i ==> (#[trigger] rs[j])@.name != name
}

/// Message represents a DNS message.
pub struct Message {
    id: u16,
    flags: u16,
    qd_count: u16,
    an_count: u16,
    ns_count: u16,
    ar_count: u16,
    questions: Vec<Record>,
    answers: Vec<Record>,
    authorities: Vec<Record>,
    additionals: Vec<Record>,
}

/// Reads `n` records in one form; see `records_at`.
fn parse_records(reader: &mut Reader, n: u16, resource: bool) -> (r: Result<Vec<Record>, Error>)
    requires
        old(reader).pos() <= old(reader).buf().len(),
    ensures
        final(reader).buf() == old(reader).buf(),
        match r {
            Ok(v) => records_at(old(reader).buf(), old(reader).pos(), n as nat, resource) == Ok::<
                (Seq<RecordModel>, int),
                ErrorKind,
            >((models(v@), final(reader).pos())) && final(reader).pos() <= final(reader).buf().len()
                && v@.len() == n && (resource ==> forall|i: int|
                0 <= i < v@.len() ==> (#[trigger] v@[i]).origin() == old(reader).buf()),
            Err(e) => records_at(old(reader).buf(), old(reader).pos(), n as nat, resource) == Err::<
                (Seq<RecordModel>, int),
                ErrorKind,
            >(e.kind),
        },
{
    let ghost buf = reader.buf();
    let ghost start = reader.pos();
    let mut v: Vec<Record> = Vec::new();
    let mut i: u16 = 0;
    assert(models(v@) =~= Seq::<RecordModel>::empty());
    while i < n
        invariant
            i <= n,
            reader.buf() == buf,
            buf == old(reader).buf(),
            start == old(reader).pos(),
            reader.pos() <= buf.len(),
            v@.len() == i,
            records_at(buf, start, i as nat, resource) == Ok::<(Seq<RecordModel>, int), ErrorKind>(
                (models(v@), reader.pos()),
            ),
            resource ==> forall|k: int| 0 <= k < v@.len() ==> (#[trigger] v@[k]).origin() == buf,
        decreases n - i,
    {
        let mut rec = Record::new();
        let res = if resource {
            rec.parse_resource_record(reader)
        } else {
            rec.parse_request_record(reader)
        };
        match res {
            Ok(()) => {},
            Err(e) => {
                assert(records_at(buf, start, (i + 1) as nat, resource) == Err::<(Seq<RecordModel>, int), ErrorKind>(e.kind));
                proof {
                    lemma_records_at_err(buf, start, (i + 1) as nat, n as nat, resource);
                }
                return Err(e);
            },
        }
        let ghost before = v@;
        v.push(rec);
        assert(models(v@) =~= models(before).push(rec@));
        i = i + 1;
    }
    Ok(v)
}

/// The text line of a typed view: name, type and content (always empty),
/// each followed by a separator.
pub open spec fn rr_line(rr: ResourceRecord) -> Seq<char> {
    rr.spec_name() + " "@ + rr.spec_typ().mnemonic() + " "@ + "\n"@
}

/// The text lines of typed views, in order.
pub open spec fn rr_lines(rrs: Seq<ResourceRecord>) -> Seq<char>
    decreases rrs.len(),
{
    if rrs.len() == 0 {
        seq![]
    } else {
        rr_lines(rrs.drop_last()) + rr_line(rrs.last())
    }
}

/// Writes records one after another in one form; see `records_wire`.
fn write_records(w: &mut Writer, rs: &Vec<Record>, resource: bool) -> (r: Result<(), Error>)
    ensures
        r is Ok <==> records_fit(models(rs@), resource),
        r is Ok ==> final(w).bytes() == old(w).bytes() + records_wire(models(rs@), resource),
        r matches Err(e) ==> e.kind == ErrorKind::Encode,
{
    let ghost ms = models(rs@);
    let mut i: usize = 0;
    assert(ms.subrange(0, 0) =~= Seq::<RecordModel>::empty());
    assert(w.bytes() =~= old(w).bytes() + records_wire(ms.subrange(0, 0), resource));
    while i < rs.len()
        invariant
            ms == models(rs@),
            i <= rs@.len(),
            w.bytes() == old(w).bytes() + records_wire(ms.subrange(0, i as int), resource),
            forall|k: int| 0 <= k < i ==> record_fits(#[trigger] ms[k], resource),
        decreases rs@.len() - i,
    {
        let res = if resource {
            w.write_response_record(&rs[i])
        } else {
            w.write_request_record(&rs[i])
        };
        match res {
            Ok(()) => {},
            Err(e) => {
                assert(!record_fits(ms[i as int], resource));
                return Err(e);
            },
        }
        assert(ms.subrange(0, i + 1).drop_last() =~= ms.subrange(0, i as int));
        i = i + 1;
    }
    assert(ms.subrange(0, i as int) =~= ms);
    Ok(())
}

/// The query/response bit of the flags word.
pub open spec fn qr_of(flags: u16) -> QR {
    if flags & 0x8000 == 0 {
        QR::Query
    } else {
        QR::Response
    }
}

/// The opcode of the flags word; values other than 1 and 2 fold to Query.
pub open spec fn opcode_of(flags: u16) -> Opcode {
    let v = (flags >> 11) & 0x0f;
    if v == 1 {
        Opcode::IQuery
    } else if v == 2 {
        Opcode::Status
    } else {
        Opcode::Query
    }
}

/// The response code of the flags word; values above 5 fold to NoError.
pub open spec fn response_code_of(flags: u16) -> ResponseCode {
    let v = flags & 0x000f;
    if v == 1 {
        ResponseCode::FormatError
    } else if v == 2 {
        ResponseCode::ServerFailure
    } else if v == 3 {
        ResponseCode::NameError
    } else if v == 4 {
        ResponseCode::NotImplemented
    } else if v == 5 {
        ResponseCode::Refused
    } else {
        ResponseCode::NoError
    }
}

/// A read of records that fails after `k` records fails the same way for any
/// larger count.
proof fn lemma_records_at_err(buf: Seq<u8>, pos: int, k: nat, m: nat, resource: bool)
    requires
        k <= m,
        records_at(buf, pos, k, resource) is Err,
    ensures
        records_at(buf, pos, m, resource) == records_at(buf, pos, k, resource),
    decreases m,
{
    if m > k {
        lemma_records_at_err(buf, pos, k, (m - 1) as nat, resource);
    }
}

/// The index of the first record named `name` in `rs`.
fn find_in(rs: &Vec<Record>, name: &str) -> (r: Option<usize>)
    ensures
        r matches Some(i) ==> first_named(rs@, name@, i as int),
        r is None ==> forall|j: int| 0 <= j < rs@.len() ==> (#[trigger] rs@[j])@.name != name@,
{
    let mut i: usize = 0;
    while i < rs.len()
        invariant
            i <= rs@.len(),
            forall|j: int| 0 <= j < i ==> (#[trigger] rs@[j])@.name != name@,
        decreases rs@.len() - i,
    {
        if same_text(rs[i].name(), name) {
            return Some(i);
        }
        i = i + 1;
    }
    None
}

impl View for Message {
    type V = MessageModel;

    open spec fn view(&self) -> MessageModel {
        MessageModel {
            id: self.header()[0],
            flags: self.header()[1],
            qd_count: self.header()[2],
            an_count: self.header()[3],
            ns_count: self.header()[4],
            ar_count: self.header()[5],
            questions: models(self.question_records()),
            answers: models(self.answer_records()),
            authorities: models(self.authority_records()),
            additionals: models(self.additional_records()),
        }
    }
}

impl Clone for Message {
    fn clone(&self) -> (r: Message)
        ensures
            r@ == self@,
    {
        let questions = clone_records(&self.questions);
        let answers = clone_records(&self.answers);
        let authorities = clone_records(&self.authorities);
        let additionals = clone_records(&self.additionals);
        let r = Message {
            id: self.id,
            flags: self.flags,
            qd_count: self.qd_count,
            an_count: self.an_count,
            ns_count: self.ns_count,
            ar_count: self.ar_count,
            questions,
            answers,
            authorities,
            additionals,
        };
        assert(r.header() =~= self.header());
        r
    }
}

/// A copy of each record.
fn clone_records(rs: &Vec<Record>) -> (r: Vec<Record>)
    ensures
        models(r@) == models(rs@),
        forall|i: int| 0 <= i < rs@.len() ==> (#[trigger] r@[i]).origin() == rs@[i].origin()
            && r@[i].data_start() == rs@[i].data_start(),
        r@.len() == rs@.len(),
{
    let mut v: Vec<Record> = Vec::new();
    let mut i: usize = 0;
    while i < rs.len()
        invariant
            i <= rs@.len(),
            v@.len() == i,
            forall|k: int| 0 <= k < i ==> (#[trigger] v@[k])@ == rs@[k]@ && v@[k].origin()
                == rs@[k].origin() && v@[k].data_start() == rs@[k].data_start(),
        decreases rs@.len() - i,
    {
        v.push(rs[i].clone());
        i = i + 1;
    }
    assert(models(v@) =~= models(rs@));
    v
}

impl Message {
    /// The header words: ID, flags, QDCOUNT, ANCOUNT, NSCOUNT, ARCOUNT.
    pub closed spec fn header(&self) -> Seq<u16> {
        seq![self.id, self.flags, self.qd_count, self.an_count, self.ns_count, self.ar_count]
    }

    /// The question section.
    pub closed spec fn question_records(&self) -> Seq<Record> {
        self.questions@
    }

    /// The answer section.
    pub closed spec fn answer_records(&self) -> Seq<Record> {
        self.answers@
    }

    /// The authority section.
    pub closed spec fn authority_records(&self) -> Seq<Record> {
        self.authorities@
    }

    /// The additional section.
    pub closed spec fn additional_records(&self) -> Seq<Record> {
        self.additionals@
    }

    /// All records, section by section in message order.
    pub open spec fn all_records(&self) -> Seq<Record> {
        self.question_records() + self.answer_records() + self.authority_records()
            + self.additional_records()
    }

    /// new creates an empty message with a zero header.
    pub fn new() -> (r: Message)
        ensures
            r@ == (MessageModel {
                id: 0,
                flags: 0,
                qd_count: 0,
                an_count: 0,
                ns_count: 0,
                ar_count: 0,
                questions: seq![],
                answers: seq![],
                authorities: seq![],
                additionals: seq![],
            }),
    {
        let r = Message {
            id: 0,
            flags: 0,
            qd_count: 0,
            an_count: 0,
            ns_count: 0,
            ar_count: 0,
            questions: Vec::new(),
            answers: Vec::new(),
            authorities: Vec::new(),
            additionals: Vec::new(),
        };
        assert(models(r.questions@) =~= Seq::<RecordModel>::empty());
        assert(models(r.answers@) =~= Seq::<RecordModel>::empty());
        assert(models(r.authorities@) =~= Seq::<RecordModel>::empty());
        assert(models(r.additionals@) =~= Seq::<RecordModel>::empty());
        r
    }

    /// from_bytes parses a message; see `parse_message`. Each count of a parsed
    /// message equals the length of its section, and every resource record
    /// keeps the whole buffer for decoding names inside its RDATA.
    pub fn from_bytes(msg_bytes: &[u8]) -> (r: Result<Message, Error>)
        ensures
            r is Ok <==> parse_message(msg_bytes@) is Ok,
            r matches Ok(m) ==> parse_message(msg_bytes@) == Ok::<MessageModel, ErrorKind>(m@),
            r matches Err(e) ==> parse_message(msg_bytes@) == Err::<MessageModel, ErrorKind>(
                e.kind,
            ),
            r matches Ok(m) ==> {
                &&& m@.qd_count == m@.questions.len()
                &&& m@.an_count == m@.answers.len()
                &&& m@.ns_count == m@.authorities.len()
                &&& m@.ar_count == m@.additionals.len()
            },
            r matches Ok(m) ==> forall|i: int|
                m.question_records().len() <= i < m.all_records().len() ==> (#[trigger] m.all_records()[i]).origin()
                    == msg_bytes@,
    {
        let mut reader = Reader::from_bytes(msg_bytes);
        if msg_bytes.len() < HEADER_SIZE {
            return Err(Error::from_bytes(msg_bytes, 0));
        }
        let id = match reader.read_u16() { Ok(v) => v, Err(e) => return Err(e) };
        let flags = match reader.read_u16() { Ok(v) => v, Err(e) => return Err(e) };
        let qd = match reader.read_u16() { Ok(v) => v, Err(e) => return Err(e) };
        let an = match reader.read_u16() { Ok(v) => v, Err(e) => return Err(e) };
        let ns = match reader.read_u16() { Ok(v) => v, Err(e) => return Err(e) };
        let ar = match reader.read_u16() { Ok(v) => v, Err(e) => return Err(e) };
        assert(reader.pos() == HEADER_SIZE);
        let questions = match parse_records(&mut reader, qd, false) { Ok(v) => v, Err(e) => return Err(e) };
        let answers = match parse_records(&mut reader, an, true) { Ok(v) => v, Err(e) => return Err(e) };
        let authorities = match parse_records(&mut reader, ns, true) { Ok(v) => v, Err(e) => return Err(e) };
        let additionals = match parse_records(&mut reader, ar, true) { Ok(v) => v, Err(e) => return Err(e) };
        let m = Message {
            id,
            flags,
            qd_count: qd,
            an_count: an,
            ns_count: ns,
            ar_count: ar,
            questions,
            answers,
            authorities,
            additionals,
        };
        proof {
            assert(m.header() =~= seq![id, flags, qd, an, ns, ar]);
            assert forall|i: int|
                m.question_records().len() <= i < m.all_records().len() implies (#[trigger] m.all_records()[i]).origin()
                    == msg_bytes@ by {
                let a = m.question_records().len() as int;
                let b = a + m.answer_records().len();
                let c = b + m.authority_records().len();
                if i < b {
                    assert(m.all_records()[i] == answers@[i - a]);
                } else if i < c {
                    assert(m.all_records()[i] == authorities@[i - b]);
                } else {
                    assert(m.all_records()[i] == additionals@[i - c]);
                }
            }
        }
        Ok(m)
    }

    /// parse_bytes replaces the message with the one parsed from the bytes;
    /// on failure the message is unchanged.
    pub fn parse_bytes(&mut self, msg_bytes: &[u8]) -> (r: Result<(), Error>)
        ensures
            r is Ok <==> parse_message(msg_bytes@) is Ok,
            r is Ok ==> parse_message(msg_bytes@) == Ok::<MessageModel, ErrorKind>(final(self)@),
            r matches Err(e) ==> parse_message(msg_bytes@) == Err::<MessageModel, ErrorKind>(
                e.kind,
            ) && final(self)@ == old(self)@,
            r is Ok ==> {
                &&& final(self)@.qd_count == final(self)@.questions.len()
                &&& final(self)@.an_count == final(self)@.answers.len()
                &&& final(self)@.ns_count == final(self)@.authorities.len()
                &&& final(self)@.ar_count == final(self)@.additionals.len()
            },
    {
        match Message::from_bytes(msg_bytes) {
            Ok(m) => {
                *self = m;
                Ok(())
            },
            Err(e) => Err(e),
        }
    }

    /// id returns the query identifier (RFC 6762 18.1: zero in mDNS).
    pub fn id(&self) -> (r: u16)
        ensures
            r == self@.id,
    {
        self.id
    }

    /// set_id sets the query identifier.
    pub fn set_id(&mut self, id: u16)
        ensures
            final(self)@ == (MessageModel { id, ..old(self)@ }),
    {
        self.id = id;
        assert(self.header() =~= old(self).header().update(0, id));
    }

    /// qr returns the query/response bit (RFC 6762 18.2).
    pub fn qr(&self) -> (r: QR)
        ensures
            r == qr_of(self@.flags),
    {
        if self.flags & 0x8000 == 0 {
            QR::Query
        } else {
            QR::Response
        }
    }

    /// set_qr sets the query/response bit.
    pub fn set_qr(&mut self, qr: QR)
        ensures
            final(self)@ == (MessageModel {
                flags: match qr {
                    QR::Query => old(self)@.flags & 0x7fff,
                    QR::Response => old(self)@.flags | 0x8000,
                },
                ..old(self)@
            }),
    {
        match qr {
            QR::Query => self.flags = self.flags & 0x7fff,
            QR::Response => self.flags = self.flags | 0x8000,
        }
        assert(self.header() =~= old(self).header().update(1, self.flags));
    }

    /// is_query returns true if the message is a query.
    pub fn is_query(&self) -> (r: bool)
        ensures
            r == (qr_of(self@.flags) == QR::Query),
    {
        self.qr() == QR::Query
    }

    /// is_response returns true if the message is a response.
    pub fn is_response(&self) -> (r: bool)
        ensures
            r == (qr_of(self@.flags) == QR::Response),
    {
        self.qr() == QR::Response
    }

    /// opcode returns the kind of query (RFC 6762 18.3).
    pub fn opcode(&self) -> (r: Opcode)
        ensures
            r == opcode_of(self@.flags),
    {
        let v = (self.flags >> 11) & 0x0f;
        if v == 1 {
            Opcode::IQuery
        } else if v == 2 {
            Opcode::Status
        } else {
            Opcode::Query
        }
    }

    /// aa returns the authoritative answer bit (RFC 6762 18.4).
    pub fn aa(&self) -> (r: bool)
        ensures
            r == (self@.flags & 0x0400 != 0),
    {
        self.flags & 0x0400 != 0
    }

    /// tc returns the truncated bit (RFC 6762 18.5).
    pub fn tc(&self) -> (r: bool)
        ensures
            r == (self@.flags & 0x0200 != 0),
    {
        self.flags & 0x0200 != 0
    }

    /// rd returns the recursion desired bit (RFC 6762 18.6).
    pub fn rd(&self) -> (r: bool)
        ensures
            r == (self@.flags & 0x0100 != 0),
    {
        self.flags & 0x0100 != 0
    }

    /// ra returns the recursion available bit (RFC 6762 18.7).
    pub fn ra(&self) -> (r: bool)
        ensures
            r == (self@.flags & 0x0080 != 0),
    {
        self.flags & 0x0080 != 0
    }

    /// z returns the zero bit (RFC 6762 18.8).
    pub fn z(&self) -> (r: bool)
        ensures
            r == (self@.flags & 0x0040 != 0),
    {
        self.flags & 0x0040 != 0
    }

    /// ad returns the authentic data bit (RFC 6762 18.9).
    pub fn ad(&self) -> (r: bool)
        ensures
            r == (self@.flags & 0x0020 != 0),
    {
        self.flags & 0x0020 != 0
    }

    /// cd returns the checking disabled bit (RFC 6762 18.10).
    pub fn cd(&self) -> (r: bool)
        ensures
            r == (self@.flags & 0x0010 != 0),
    {
        self.flags & 0x0010 != 0
    }

    /// response_code returns the response code (RFC 6762 18.11).
    pub fn response_code(&self) -> (r: ResponseCode)
        ensures
            r == response_code_of(self@.flags),
    {
        let v = self.flags & 0x000f;
        if v == 1 {
            ResponseCode::FormatError
        } else if v == 2 {
            ResponseCode::ServerFailure
        } else if v == 3 {
            ResponseCode::NameError
        } else if v == 4 {
            ResponseCode::NotImplemented
        } else if v == 5 {
            ResponseCode::Refused
        } else {
            ResponseCode::NoError
        }
    }

    /// set_qd_count sets the QDCOUNT field.
    pub fn set_qd_count(&mut self, num: u16)
        ensures
            final(self)@ == (MessageModel { qd_count: num, ..old(self)@ }),
    {
        self.qd_count = num;
        assert(self.header() =~= old(self).header().update(2, num));
    }

    /// qd_count returns the number of entries in the question section field.
    pub fn qd_count(&self) -> (r: u16)
        ensures
            r == self@.qd_count,
    {
        self.qd_count
    }

    /// set_an_count sets the ANCOUNT field.
    pub fn set_an_count(&mut self, num: u16)
        ensures
            final(self)@ == (MessageModel { an_count: num, ..old(self)@ }),
    {
        self.an_count = num;
        assert(self.header() =~= old(self).header().update(3, num));
    }

    /// an_count returns the number of entries in the answer section field.
    pub fn an_count(&self) -> (r: u16)
        ensures
            r == self@.an_count,
    {
        self.an_count
    }

    /// set_ns_count sets the NSCOUNT field.
    pub fn set_ns_count(&mut self, num: u16)
        ensures
            final(self)@ == (MessageModel { ns_count: num, ..old(self)@ }),
    {
        self.ns_count = num;
        assert(self.header() =~= old(self).header().update(4, num));
    }

    /// ns_count returns the number of entries in the authority section field.
    pub fn ns_count(&self) -> (r: u16)
        ensures
            r == self@.ns_count,
    {
        self.ns_count
    }

    /// set_ar_count sets the ARCOUNT field.
    pub fn set_ar_count(&mut self, num: u16)
        ensures
            final(self)@ == (MessageModel { ar_count: num, ..old(self)@ }),
    {
        self.ar_count = num;
        assert(self.header() =~= old(self).header().update(5, num));
    }

    /// ar_count returns the number of entries in the additional section field.
    pub fn ar_count(&self) -> (r: u16)
        ensures
            r == self@.ar_count,
    {
        self.ar_count
    }

    /// add_question appends a question and sets QDCOUNT to the new length.
    pub fn add_question(&mut self, question: Record)
        requires
            old(self).question_records().len() < 0xffff,
        ensures
            final(self).question_records() == old(self).question_records().push(question),
            final(self)@ == (MessageModel {
                questions: old(self)@.questions.push(question@),
                qd_count: (old(self)@.questions.len() + 1) as u16,
                ..old(self)@
            }),
            final(self).answer_records() == old(self).answer_records(),
            final(self).authority_records() == old(self).authority_records(),
            final(self).additional_records() == old(self).additional_records(),
    {
        self.questions.push(question);
        self.qd_count = self.questions.len() as u16;
        assert(models(self.questions@) =~= models(old(self).questions@).push(question@));
        assert(self.header() =~= old(self).header().update(2, self.qd_count));
    }

    /// questions returns the question section.
    pub fn questions(&self) -> (r: &Vec<Record>)
        ensures
            r@ == self.question_records(),
    {
        &self.questions
    }

    /// add_answer appends an answer and sets ANCOUNT to the new length.
    pub fn add_answer(&mut self, answer: Record)
        requires
            old(self).answer_records().len() < 0xffff,
        ensures
            final(self).answer_records() == old(self).answer_records().push(answer),
            final(self)@ == (MessageModel {
                answers: old(self)@.answers.push(answer@),
                an_count: (old(self)@.answers.len() + 1) as u16,
                ..old(self)@
            }),
            final(self).question_records() == old(self).question_records(),
            final(self).authority_records() == old(self).authority_records(),
            final(self).additional_records() == old(self).additional_records(),
    {
        self.answers.push(answer);
        self.an_count = self.answers.len() as u16;
        assert(models(self.answers@) =~= models(old(self).answers@).push(answer@));
        assert(self.header() =~= old(self).header().update(3, self.an_count));
    }

    /// answers returns the answer section.
    pub fn answers(&self) -> (r: &Vec<Record>)
        ensures
            r@ == self.answer_records(),
    {
        &self.answers
    }

    /// add_authority appends an authority and sets NSCOUNT to the new length.
    pub fn add_authority(&mut self, authority: Record)
        requires
            old(self).authority_records().len() < 0xffff,
        ensures
            final(self).authority_records() == old(self).authority_records().push(authority),
            final(self)@ == (MessageModel {
                authorities: old(self)@.authorities.push(authority@),
                ns_count: (old(self)@.authorities.len() + 1) as u16,
                ..old(self)@
            }),
            final(self).question_records() == old(self).question_records(),
            final(self).answer_records() == old(self).answer_records(),
            final(self).additional_records() == old(self).additional_records(),
    {
        self.authorities.push(authority);
        self.ns_count = self.authorities.len() as u16;
        assert(models(self.authorities@) =~= models(old(self).authorities@).push(authority@));
        assert(self.header() =~= old(self).header().update(4, self.ns_count));
    }

    /// authorities returns the authority section.
    pub fn authorities(&self) -> (r: &Vec<Record>)
        ensures
            r@ == self.authority_records(),
    {
        &self.authorities
    }

    /// add_additional appends an additional and sets ARCOUNT to the new length.
    pub fn add_additional(&mut self, additional: Record)
        requires
            old(self).additional_records().len() < 0xffff,
        ensures
            final(self).additional_records() == old(self).additional_records().push(additional),
            final(self)@ == (MessageModel {
                additionals: old(self)@.additionals.push(additional@),
                ar_count: (old(self)@.additionals.len() + 1) as u16,
                ..old(self)@
            }),
            final(self).question_records() == old(self).question_records(),
            final(self).answer_records() == old(self).answer_records(),
            final(self).authority_records() == old(self).authority_records(),
    {
        self.additionals.push(additional);
        self.ar_count = self.additionals.len() as u16;
        assert(models(self.additionals@) =~= models(old(self).additionals@).push(additional@));
        assert(self.header() =~= old(self).header().update(5, self.ar_count));
    }

    /// additionals returns the additional section.
    pub fn additionals(&self) -> (r: &Vec<Record>)
        ensures
            r@ == self.additional_records(),
    {
        &self.additionals
    }

    /// resource_records returns the typed views of the answers, authorities
    /// and additionals, in that order; records that cannot be read through a
    /// view (an unsupported type, or malformed RDATA) are left out.
    pub fn resource_records(&self) -> (r: Vec<ResourceRecord>)
        ensures
            views_of(r@, self.answer_records() + self.authority_records() + self.additional_records()),
    {
        let mut out: Vec<ResourceRecord> = Vec::new();
        assert(views_of(out@, Seq::<Record>::empty()));
        collect_views(&self.answers, &mut out, Ghost(Seq::<Record>::empty()));
        assert(Seq::<Record>::empty() + self.answers@ =~= self.answers@);
        collect_views(&self.authorities, &mut out, Ghost(self.answers@));
        collect_views(&self.additionals, &mut out, Ghost(self.answers@ + self.authorities@));
        out
    }

    /// to_string returns one line per typed view (see `resource_records`):
    /// its name, type and content, separated by spaces.
    pub fn to_string(&self) -> (r: String)
        ensures
            exists|rrs: Seq<ResourceRecord>|
                views_of(rrs, self.answer_records() + self.authority_records() + self.additional_records())
                    && r@ == rr_lines(rrs),
    {
        let rrs = self.resource_records();
        let mut s = String::new();
        let mut i: usize = 0;
        assert(rrs@.subrange(0, 0) =~= Seq::<ResourceRecord>::empty());
        while i < rrs.len()
            invariant
                i <= rrs@.len(),
                s@ == rr_lines(rrs@.subrange(0, i as int)),
            decreases rrs@.len() - i,
        {
            let ghost before = s@;
            let t = rrs[i].typ().to_string();
            append(&mut s, rrs[i].name());
            append(&mut s, " ");
            append(&mut s, t.as_str());
            append(&mut s, " ");
            append(&mut s, rrs[i].content());
            append(&mut s, "\n");
            assert(rrs@.subrange(0, i + 1).drop_last() =~= rrs@.subrange(0, i as int));
            assert(s@ =~= before + rr_line(rrs@[i as int]));
            i = i + 1;
        }
        assert(rrs@.subrange(0, i as int) =~= rrs@);
        s
    }

    /// find_record returns the first record with the given name, searching
    /// questions, answers, authorities and additionals in that order.
    pub fn find_record(&self, name: &str) -> (r: Option<&Record>)
        ensures
            r matches Some(x) ==> exists|i: int|
                first_named(self.all_records(), name@, i) && self.all_records()[i] == *x,
            r is None ==> forall|i: int|
                0 <= i < self.all_records().len() ==> (#[trigger] self.all_records()[i])@.name
                    != name@,
    {
        let ghost all = self.all_records();
        let ghost a = self.questions@.len() as int;
        let ghost b = a + self.answers@.len();
        let ghost c = b + self.authorities@.len();
        assert(all.len() == c + self.additionals@.len());
        assert(forall|i: int| 0 <= i < a ==> all[i] == self.questions@[i]);
        assert(forall|i: int| a <= i < b ==> all[i] == self.answers@[i - a]);
        assert(forall|i: int| b <= i < c ==> all[i] == self.authorities@[i - b]);
        assert(forall|i: int| c <= i < all.len() ==> all[i] == self.additionals@[i - c]);
        if let Some(i) = find_in(&self.questions, name) {
            assert(first_named(all, name@, i as int));
            return Some(&self.questions[i]);
        }
        if let Some(i) = find_in(&self.answers, name) {
            assert(first_named(all, name@, a + i));
            return Some(&self.answers[i]);
        }
        if let Some(i) = find_in(&self.authorities, name) {
            assert(first_named(all, name@, b + i));
            return Some(&self.authorities[i]);
        }
        if let Some(i) = find_in(&self.additionals, name) {
            assert(first_named(all, name@, c + i));
            return Some(&self.additionals[i]);
        }
        None
    }

    /// to_bytes writes the message; see `message_wire`. It fails when a count
    /// differs from the length of its section, or a record cannot be written.
    pub fn to_bytes(&self) -> (r: Result<Vec<u8>, Error>)
        ensures
            r is Ok <==> message_fits(self@),
            r matches Ok(b) ==> b@ == message_wire(self@),
            r matches Err(e) ==> e.kind == ErrorKind::Encode,
    {
        if self.qd_count as usize != self.questions.len() || self.an_count as usize
            != self.answers.len() || self.ns_count as usize != self.authorities.len()
            || self.ar_count as usize != self.additionals.len() {
            return Err(Error { kind: ErrorKind::Encode, msg: "counts differ from sections".to_owned() });
        }
        let mut w = Writer::new();
        let _ = w.write_u16(self.id);
        let _ = w.write_u16(self.flags);
        let _ = w.write_u16(self.qd_count);
        let _ = w.write_u16(self.an_count);
        let _ = w.write_u16(self.ns_count);
        let _ = w.write_u16(self.ar_count);
        assert(w.bytes() =~= header_wire(self@)) by {
            reveal(header_wire);
        }
        match write_records(&mut w, &self.questions, false) {
            Ok(()) => {},
            Err(e) => return Err(e),
        }
        match write_records(&mut w, &self.answers, true) {
            Ok(()) => {},
            Err(e) => return Err(e),
        }
        match write_records(&mut w, &self.authorities, true) {
            Ok(()) => {},
            Err(e) => return Err(e),
        }
        match write_records(&mut w, &self.additionals, true) {
            Ok(()) => {},
            Err(e) => return Err(e),
        }
        Ok(w.to_bytes())
    }

}

} // verus!
