use vstd::prelude::*;

use crate::dns::a_record::{a_addr, ARecord};
use crate::dns::aaaa_record::{aaaa_addr, AAAARecord};
use crate::dns::error::{Error, ErrorKind};
use crate::dns::nsec_record::NSECRecord;
use crate::dns::ptr_record::{ptr_target, PTRRecord};
use crate::dns::record::Record;
use crate::dns::srv_record::{srv_of, SRVRecord, SrvModel};
use crate::dns::txt_record::{txt_attrs, txt_strings, TXTRecord};
use crate::dns::typ::Type;

verus! {

/// A record interpreted through its type.
#[allow(clippy::upper_case_acronyms)]
pub enum ResourceRecord {
    A(ARecord),
    AAAA(AAAARecord),
    PTR(PTRRecord),
    SRV(SRVRecord),
    TXT(TXTRecord),
    NSEC(NSECRecord),
}

/// Whether a record of this type has a typed view.
pub open spec fn supported(t: Type) -> bool {
    t == Type::A || t == Type::AAAA || t == Type::PTR || t == Type::SRV || t == Type::TXT || t
        == Type::NSEC
}

/// Whether a record can be read through its typed view.
pub open spec fn decodes(r: Record) -> bool {
    match r@.typ {
        Type::A => a_addr(r@.data) is Some,
        Type::AAAA => aaaa_addr(r@.data) is Some,
        Type::PTR => ptr_target(r) is Ok,
        Type::SRV => srv_of(r) is Ok,
        Type::TXT => txt_strings(r) is Ok,
        Type::NSEC => true,
        _ => false,
    }
}

/// Whether `rr` is the typed view of `r`.
pub open spec fn describes(rr: ResourceRecord, r: Record) -> bool {
    match rr {
        ResourceRecord::A(a) => r@.typ == Type::A && a.owner() == r@.name && Some(a.addr())
            == a_addr(r@.data),
        ResourceRecord::AAAA(a) => r@.typ == Type::AAAA && a.owner() == r@.name && Some(a.addr())
            == aaaa_addr(r@.data),
        ResourceRecord::PTR(p) => r@.typ == Type::PTR && p.owner() == r@.name && ptr_target(r)
            == Ok::<Seq<char>, ErrorKind>(p.target()),
        ResourceRecord::SRV(s) => r@.typ == Type::SRV && srv_of(r) == Ok::<SrvModel, ErrorKind>(
            s@,
        ),
        ResourceRecord::TXT(t) => r@.typ == Type::TXT && t.owner() == r@.name && txt_strings(r)
            == Ok::<Seq<Seq<char>>, ErrorKind>(t.texts()) && t.attrs() == txt_attrs(t.texts()),
        ResourceRecord::NSEC(n) => r@.typ == Type::NSEC && n.owner() == r@.name,
    }
}

/// The records that can be read through their typed views, in order.
pub open spec fn decodable(rs: Seq<Record>) -> Seq<Record>
    decreases rs.len(),
{
    if rs.len() == 0 {
        seq![]
    } else if decodes(rs.last()) {
        decodable(rs.drop_last()).push(rs.last())
    } else {
        decodable(rs.drop_last())
    }
}

/// Whether `out` holds the typed views of the decodable records of `rs`.
pub open spec fn views_of(out: Seq<ResourceRecord>, rs: Seq<Record>) -> bool {
    &&& out.len() == decodable(rs).len()
    &&& forall|i: int| 0 <= i < out.len() ==> describes(#[trigger] out[i], decodable(rs)[i])
}

impl ResourceRecord {
    /// The owner name shown for the view; an SRV record shows its instance.
    pub open spec fn spec_name(&self) -> Seq<char> {
        match self {
            ResourceRecord::A(a) => a.owner(),
            ResourceRecord::AAAA(a) => a.owner(),
            ResourceRecord::PTR(p) => p.owner(),
            ResourceRecord::SRV(s) => s@.name,
            ResourceRecord::TXT(t) => t.owner(),
            ResourceRecord::NSEC(n) => n.owner(),
        }
    }

    /// The type of the view.
    pub open spec fn spec_typ(&self) -> Type {
        match self {
            ResourceRecord::A(_) => Type::A,
            ResourceRecord::AAAA(_) => Type::AAAA,
            ResourceRecord::PTR(_) => Type::PTR,
            ResourceRecord::SRV(_) => Type::SRV,
            ResourceRecord::TXT(_) => Type::TXT,
            ResourceRecord::NSEC(_) => Type::NSEC,
        }
    }

    /// name returns the owner name of the record.
    pub fn name(&self) -> (r: &str)
        ensures
            r@ == self.spec_name(),
    {
        match self {
            ResourceRecord::A(a) => a.name(),
            ResourceRecord::AAAA(a) => a.name(),
            ResourceRecord::PTR(p) => p.name(),
            ResourceRecord::SRV(s) => s.name(),
            ResourceRecord::TXT(t) => t.name(),
            ResourceRecord::NSEC(n) => n.name(),
        }
    }

    /// typ returns the type of the record.
    pub fn typ(&self) -> (r: Type)
        ensures
            r == self.spec_typ(),
    {
        match self {
            ResourceRecord::A(_) => Type::A,
            ResourceRecord::AAAA(_) => Type::AAAA,
            ResourceRecord::PTR(_) => Type::PTR,
            ResourceRecord::SRV(_) => Type::SRV,
            ResourceRecord::TXT(_) => Type::TXT,
            ResourceRecord::NSEC(_) => Type::NSEC,
        }
    }

    /// content returns the string form of the record data; it is empty for
    /// every view.
    pub fn content(&self) -> (r: &str)
        ensures
            r@ == Seq::<char>::empty(),
    {
        proof {
            reveal_strlit("");
        }
        ""
    }
}

impl Record {
    /// to_resource_record reads the record through the view of its type.
    /// Types without a view fail with UnsupportedType.
    pub fn to_resource_record(&self) -> (r: Result<ResourceRecord, Error>)
        ensures
            r is Ok <==> decodes(*self),
            r matches Ok(rr) ==> describes(rr, *self),
            r matches Err(e) ==> !supported(self@.typ) ==> e.kind == ErrorKind::UnsupportedType,
    {
        match self.typ() {
            Type::A => match ARecord::from_record(self) {
                Ok(a) => Ok(ResourceRecord::A(a)),
                Err(e) => Err(e),
            },
            Type::AAAA => match AAAARecord::from_record(self) {
                Ok(a) => Ok(ResourceRecord::AAAA(a)),
                Err(e) => Err(e),
            },
            Type::TXT => match TXTRecord::from_record(self) {
                Ok(t) => Ok(ResourceRecord::TXT(t)),
                Err(e) => Err(e),
            },
            Type::SRV => match SRVRecord::from_record(self) {
                Ok(s) => Ok(ResourceRecord::SRV(s)),
                Err(e) => Err(e),
            },
            Type::PTR => match PTRRecord::from_record(self) {
                Ok(p) => Ok(ResourceRecord::PTR(p)),
                Err(e) => Err(e),
            },
            Type::NSEC => match NSECRecord::from_record(self) {
                Ok(n) => Ok(ResourceRecord::NSEC(n)),
                Err(e) => Err(e),
            },
            _ => Err(Error { kind: ErrorKind::UnsupportedType, msg: self.typ().to_string() }),
        }
    }
}

/// Appends the typed views of the decodable records of `rs` to `out`.
pub(crate) fn collect_views(rs: &Vec<Record>, out: &mut Vec<ResourceRecord>, Ghost(done): Ghost<Seq<Record>>)
    requires
        views_of(old(out)@, done),
    ensures
        views_of(final(out)@, done + rs@),
{
    let mut i: usize = 0;
    assert(done + rs@.subrange(0, 0) =~= done);
    while i < rs.len()
        invariant
            i <= rs@.len(),
            views_of(out@, done + rs@.subrange(0, i as int)),
        decreases rs@.len() - i,
    {
        let ghost before = out@;
        let ghost prev = done + rs@.subrange(0, i as int);
        let ghost next = done + rs@.subrange(0, i + 1);
        assert(next.drop_last() =~= prev);
        assert(next.last() == rs@[i as int]);
        match rs[i].to_resource_record() {
            Ok(rr) => {
                out.push(rr);
                assert(forall|k: int| 0 <= k < before.len() ==> out@[k] == before[k]);
            },
            Err(_) => {},
        }
        i = i + 1;
    }
    assert(done + rs@.subrange(0, i as int) =~= done + rs@);
}

} // verus!
