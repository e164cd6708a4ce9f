use vstd::prelude::*;

use crate::dns::error::{Error, ErrorKind};
use crate::dns::ipaddr::IpAddr;
use crate::dns::record::Record;
use crate::dns::typ::Type;
use crate::dns::wire::be16;

verus! {

/// The IPv6 address in the first sixteen octets of RDATA, if there are
/// sixteen.
pub open spec fn aaaa_addr(data: Seq<u8>) -> Option<IpAddr> {
    if data.len() >= 16 {
        Some(
            IpAddr::V6(
                be16(data, 0),
                be16(data, 2),
                be16(data, 4),
                be16(data, 6),
                be16(data, 8),
                be16(data, 10),
                be16(data, 12),
                be16(data, 14),
            ),
        )
    } else {
        None
    }
}

/// The big-endian 16-bit group at `p`.
fn group(data: &[u8], p: usize) -> (r: u16)
    requires
        p + 2 <= data@.len(),
    ensures
        r == be16(data@, p as int),
{
    (data[p] as u16) * 256 + data[p + 1] as u16
}

/// AAAARecord represents an AAAA record.
pub struct AAAARecord {
    name: String,
    ipaddr: IpAddr,
}

impl AAAARecord {
    /// The owner name.
    pub closed spec fn owner(&self) -> Seq<char> {
        self.name@
    }

    /// The address.
    pub closed spec fn addr(&self) -> IpAddr {
        self.ipaddr
    }

    /// from_record reads the IPv6 address in the RDATA; fewer than sixteen
    /// octets are malformed.
    pub fn from_record(record: &Record) -> (r: Result<AAAARecord, Error>)
        ensures
            r is Ok <==> aaaa_addr(record@.data) is Some,
            r matches Ok(a) ==> a.owner() == record@.name && Some(a.addr()) == aaaa_addr(
                record@.data,
            ),
            r matches Err(e) ==> e.kind == ErrorKind::MalformedRecord,
    {
        let data = record.data();
        if data.len() < 16 {
            return Err(Error::with_kind(ErrorKind::MalformedRecord, data, 0));
        }
        Ok(AAAARecord {
            name: record.name().to_owned(),
            ipaddr: IpAddr::V6(
                group(data, 0),
                group(data, 2),
                group(data, 4),
                group(data, 6),
                group(data, 8),
                group(data, 10),
                group(data, 12),
                group(data, 14),
            ),
        })
    }

    /// name returns the owner name.
    pub fn name(&self) -> (r: &str)
        ensures
            r@ == self.owner(),
    {
        self.name.as_str()
    }

    /// typ returns the type of the AAAA record.
    pub fn typ(&self) -> (r: Type)
        ensures
            r == Type::AAAA,
    {
        Type::AAAA
    }

    /// ipaddr returns the IP address of the AAAA record.
    pub fn ipaddr(&self) -> (r: IpAddr)
        ensures
            r == self.addr(),
    {
        self.ipaddr
    }
}

} // verus!
