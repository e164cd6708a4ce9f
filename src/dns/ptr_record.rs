use vstd::prelude::*;

use crate::dns::error::{Error, ErrorKind};
use crate::dns::reader::read_name_from;
use crate::dns::record::Record;
use crate::dns::typ::Type;
use crate::dns::wire::name_at;

verus! {

/// The name a PTR record points to: the name at the start of its RDATA,
/// decoded against the message the record came from. Empty RDATA is
/// malformed.
pub open spec fn ptr_target(r: Record) -> Result<Seq<char>, ErrorKind> {
    if r@.data.len() == 0 {
        Err(ErrorKind::MalformedRecord)
    } else {
        match name_at(r.origin(), r.data_start()) {
            Ok((n, _)) => Ok(n),
            Err(e) => Err(e),
        }
    }
}

/// PTRRecord represents a PTR record.
pub struct PTRRecord {
    name: String,
    domain_name: String,
}

impl PTRRecord {
    /// The owner name.
    pub closed spec fn owner(&self) -> Seq<char> {
        self.name@
    }

    /// The name pointed to.
    pub closed spec fn target(&self) -> Seq<char> {
        self.domain_name@
    }

    /// from_record decodes the name in the RDATA; see `ptr_target`.
    pub fn from_record(record: &Record) -> (r: Result<PTRRecord, Error>)
        ensures
            r is Ok <==> ptr_target(*record) is Ok,
            r matches Ok(p) ==> p.owner() == record@.name && ptr_target(*record) == Ok::<
                Seq<char>,
                ErrorKind,
            >(p.target()),
            r matches Err(e) ==> ptr_target(*record) == Err::<Seq<char>, ErrorKind>(e.kind),
    {
        if record.data().len() == 0 {
            return Err(Error::with_kind(ErrorKind::MalformedRecord, record.data(), 0));
        }
        match read_name_from(record.message_bytes(), record.data_offset()) {
            Ok((domain_name, _)) => Ok(PTRRecord { name: record.name().to_owned(), domain_name }),
            Err(e) => Err(e),
        }
    }

    /// name returns the owner name.
    pub fn name(&self) -> (r: &str)
        ensures
            r@ == self.owner(),
    {
        self.name.as_str()
    }

    /// typ returns the type of the PTR record.
    pub fn typ(&self) -> (r: Type)
        ensures
            r == Type::PTR,
    {
        Type::PTR
    }

    /// domain_name returns the name pointed to.
    pub fn domain_name(&self) -> (r: &str)
        ensures
            r@ == self.target(),
    {
        self.domain_name.as_str()
    }
}

} // verus!
