use vstd::prelude::*;

use crate::dns::error::{Error, ErrorKind};
use crate::dns::ipaddr::IpAddr;
use crate::dns::record::Record;
use crate::dns::typ::Type;

verus! {

/// The IPv4 address in the first four octets of RDATA, if there are four.
pub open spec fn a_addr(data: Seq<u8>) -> Option<IpAddr> {
    if data.len() >= 4 {
        Some(IpAddr::V4(data[0], data[1], data[2], data[3]))
    } else {
        None
    }
}

/// ARecord represents an A record.
pub struct ARecord {
    name: String,
    ipaddr: IpAddr,
}

impl ARecord {
    /// The owner name.
    pub closed spec fn owner(&self) -> Seq<char> {
        self.name@
    }

    /// The address.
    pub closed spec fn addr(&self) -> IpAddr {
        self.ipaddr
    }

    /// from_record reads the IPv4 address in the RDATA; fewer than four
    /// octets are malformed.
    pub fn from_record(record: &Record) -> (r: Result<ARecord, Error>)
        ensures
            r is Ok <==> a_addr(record@.data) is Some,
            r matches Ok(a) ==> a.owner() == record@.name && Some(a.addr()) == a_addr(
                record@.data,
            ),
            r matches Err(e) ==> e.kind == ErrorKind::MalformedRecord,
    {
        let data = record.data();
        if data.len() < 4 {
            return Err(Error::with_kind(ErrorKind::MalformedRecord, data, 0));
        }
        Ok(ARecord {
            name: record.name().to_owned(),
            ipaddr: IpAddr::V4(data[0], data[1], data[2], data[3]),
        })
    }

    /// name returns the owner name.
    pub fn name(&self) -> (r: &str)
        ensures
            r@ == self.owner(),
    {
        self.name.as_str()
    }

    /// typ returns the type of the A record.
    pub fn typ(&self) -> (r: Type)
        ensures
            r == Type::A,
    {
        Type::A
    }

    /// ipaddr returns the IP address of the A record.
    pub fn ipaddr(&self) -> (r: IpAddr)
        ensures
            r == self.addr(),
    {
        self.ipaddr
    }
}

} // verus!
