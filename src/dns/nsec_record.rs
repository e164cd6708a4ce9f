use vstd::prelude::*;

use crate::dns::error::Error;
use crate::dns::record::Record;
use crate::dns::typ::Type;

verus! {

/// NSECRecord represents an NSEC record; only its owner name is kept.
pub struct NSECRecord {
    name: String,
}

impl NSECRecord {
    /// The owner name.
    pub closed spec fn owner(&self) -> Seq<char> {
        self.name@
    }

    /// from_record keeps the owner name; it never fails.
    pub fn from_record(record: &Record) -> (r: Result<NSECRecord, Error>)
        ensures
            r matches Ok(n) && n.owner() == record@.name,
    {
        Ok(NSECRecord { name: record.name().to_owned() })
    }

    /// name returns the owner name.
    pub fn name(&self) -> (r: &str)
        ensures
            r@ == self.owner(),
    {
        self.name.as_str()
    }

    /// typ returns the type of the record.
    pub fn typ(&self) -> (r: Type)
        ensures
            r == Type::NSEC,
    {
        Type::NSEC
    }
}

} // verus!
