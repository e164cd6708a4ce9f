use vstd::prelude::*;

use crate::dns::error::{Error, ErrorKind};
use crate::dns::reader::read_name_from;
use crate::dns::record::Record;
use crate::dns::text::{nth_text_field, text_field};
use crate::dns::typ::Type;
use crate::dns::wire::{be16, name_at};

verus! {

/// What an SRV record says. The instance name, service and protocol are the
/// first three dot-separated fields of the owner name
/// (`<instance>.<_service>.<_proto>.<domain>`).
pub struct SrvModel {
    pub service: Seq<char>,
    pub proto: Seq<char>,
    pub name: Seq<char>,
    pub priority: u16,
    pub weight: u16,
    pub port: u16,
    pub target: Seq<char>,
}

/// The SRV view of a record: priority, weight and port in the first six
/// octets of RDATA, then the target name, decoded against the message the
/// record came from. Fewer than six octets are malformed.
pub open spec fn srv_of(r: Record) -> Result<SrvModel, ErrorKind> {
    if r@.data.len() < 6 {
        Err(ErrorKind::MalformedRecord)
    } else {
        match name_at(r.origin(), r.data_start() + 6) {
            Ok((t, _)) => Ok(
                SrvModel {
                    service: text_field(r@.name, 1),
                    proto: text_field(r@.name, 2),
                    name: text_field(r@.name, 0),
                    priority: be16(r@.data, 0),
                    weight: be16(r@.data, 2),
                    port: be16(r@.data, 4),
                    target: t,
                },
            ),
            Err(e) => Err(e),
        }
    }
}

/// SRVRecord represents an SRV record.
pub struct SRVRecord {
    service: String,
    proto: String,
    name: String,
    priority: u16,
    weight: u16,
    port: u16,
    target: String,
}

impl View for SRVRecord {
    type V = SrvModel;

    closed spec fn view(&self) -> SrvModel {
        SrvModel {
            service: self.service@,
            proto: self.proto@,
            name: self.name@,
            priority: self.priority,
            weight: self.weight,
            port: self.port,
            target: self.target@,
        }
    }
}

/// The big-endian 16-bit integer at `p`.
fn word(data: &[u8], p: usize) -> (r: u16)
    requires
        p + 2 <= data@.len(),
    ensures
        r == be16(data@, p as int),
{
    (data[p] as u16) * 256 + data[p + 1] as u16
}

impl SRVRecord {
    /// from_record reads the SRV view of a record; see `srv_of`.
    pub fn from_record(record: &Record) -> (r: Result<SRVRecord, Error>)
        ensures
            r is Ok <==> srv_of(*record) is Ok,
            r matches Ok(s) ==> srv_of(*record) == Ok::<SrvModel, ErrorKind>(s@),
            r matches Err(e) ==> srv_of(*record) == Err::<SrvModel, ErrorKind>(e.kind),
    {
        let data = record.data();
        if data.len() < 6 {
            return Err(Error::with_kind(ErrorKind::MalformedRecord, data, 0));
        }
        let msg = record.message_bytes();
        let start = record.data_offset();
        if start >= msg.len() || msg.len() - start <= 6 {
            return Err(Error::from_bytes(msg, start));
        }
        let target = match read_name_from(msg, start + 6) {
            Ok((t, _)) => t,
            Err(e) => return Err(e),
        };
        Ok(SRVRecord {
            service: nth_text_field(record.name(), 1),
            proto: nth_text_field(record.name(), 2),
            name: nth_text_field(record.name(), 0),
            priority: word(data, 0),
            weight: word(data, 2),
            port: word(data, 4),
            target,
        })
    }

    /// service returns the service label of the owner name.
    pub fn service(&self) -> (r: &str)
        ensures
            r@ == self@.service,
    {
        self.service.as_str()
    }

    /// proto returns the protocol label of the owner name.
    pub fn proto(&self) -> (r: &str)
        ensures
            r@ == self@.proto,
    {
        self.proto.as_str()
    }

    /// name returns the instance label of the owner name.
    pub fn name(&self) -> (r: &str)
        ensures
            r@ == self@.name,
    {
        self.name.as_str()
    }

    /// priority returns the priority of the SRV record.
    pub fn priority(&self) -> (r: u16)
        ensures
            r == self@.priority,
    {
        self.priority
    }

    /// weight returns the weight of the SRV record.
    pub fn weight(&self) -> (r: u16)
        ensures
            r == self@.weight,
    {
        self.weight
    }

    /// port returns the port of the SRV record.
    pub fn port(&self) -> (r: u16)
        ensures
            r == self@.port,
    {
        self.port
    }

    /// target returns the target host of the SRV record.
    pub fn target(&self) -> (r: &str)
        ensures
            r@ == self@.target,
    {
        self.target.as_str()
    }

    /// typ returns the type of the record.
    pub fn typ(&self) -> (r: Type)
        ensures
            r == Type::SRV,
    {
        Type::SRV
    }
}

} // verus!
