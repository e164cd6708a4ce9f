use vstd::prelude::*;

use crate::dns::a_record::{a_addr, ARecord};
use crate::dns::aaaa_record::{aaaa_addr, AAAARecord};
use crate::dns::ipaddr::IpAddr;
use crate::dns::message::Message;
use crate::dns::record::Record;
use crate::dns::resource_record::{views_of, ResourceRecord};
use crate::dns::srv_record::{srv_of, SRVRecord};
use crate::dns::txt_record::{find_key, has_key, pairs, same_key, txt_attrs, txt_strings, TXTRecord};
use crate::dns::typ::Type;

verus! {

/// What a discovered service holds, as mathematical values.
pub struct ServiceModel {
    pub name: Seq<char>,
    pub domain: Seq<char>,
    pub host: Seq<char>,
    pub port: u16,
    pub ipaddrs: Seq<IpAddr>,
    pub attrs: Seq<(Seq<char>, Seq<char>)>,
}

/// A service with nothing known yet.
pub open spec fn empty_service() -> ServiceModel {
    ServiceModel {
        name: seq![],
        domain: seq![],
        host: seq![],
        port: 0,
        ipaddrs: seq![],
        attrs: seq![],
    }
}

/// What one record adds to a service: an SRV record sets the instance name,
/// the domain (its protocol), the host and the port; a TXT record sets the
/// attributes; an A or AAAA record appends its address. Other records, and
/// records whose RDATA cannot be read, change nothing.
pub open spec fn apply_record(s: ServiceModel, r: Record) -> ServiceModel {
    match r@.typ {
        Type::SRV => match srv_of(r) {
            Ok(v) => ServiceModel { name: v.name, domain: v.proto, host: v.target, port: v.port, ..s },
            Err(_) => s,
        },
        Type::TXT => match txt_strings(r) {
            Ok(strs) => ServiceModel { attrs: txt_attrs(strs), ..s },
            Err(_) => s,
        },
        Type::A => match a_addr(r@.data) {
            Some(ip) => ServiceModel { ipaddrs: s.ipaddrs.push(ip), ..s },
            None => s,
        },
        Type::AAAA => match aaaa_addr(r@.data) {
            Some(ip) => ServiceModel { ipaddrs: s.ipaddrs.push(ip), ..s },
            None => s,
        },
        _ => s,
    }
}

/// The service that the records describe, taken in order.
pub open spec fn service_of(rs: Seq<Record>) -> ServiceModel
    decreases rs.len(),
{
    if rs.len() == 0 {
        empty_service()
    } else {
        apply_record(service_of(rs.drop_last()), rs.last())
    }
}

/// Service represents a DNS-SD service.
pub struct Service {
    msg: Message,
    name: String,
    domain: String,
    host: String,
    ipaddrs: Vec<IpAddr>,
    port: u16,
    attrs: Vec<(String, String)>,
}

impl View for Service {
    type V = ServiceModel;

    closed spec fn view(&self) -> ServiceModel {
        ServiceModel {
            name: self.name@,
            domain: self.domain@,
            host: self.host@,
            port: self.port,
            ipaddrs: self.ipaddrs@,
            attrs: pairs(self.attrs@),
        }
    }
}

impl Service {
    /// The message the service was built from.
    pub closed spec fn source(&self) -> Message {
        self.msg
    }

    /// from_message folds every record of every section, in order, into a
    /// service; see `service_of`.
    pub fn from_message(msg: &Message) -> (r: Service)
        ensures
            r@ == service_of(msg.all_records()),
            r.source()@ == msg@,
    {
        let mut srv = Service {
            msg: msg.clone(),
            name: String::new(),
            domain: String::new(),
            host: String::new(),
            port: 0,
            ipaddrs: Vec::new(),
            attrs: Vec::new(),
        };
        assert(pairs(srv.attrs@) =~= Seq::<(Seq<char>, Seq<char>)>::empty());
        assert(srv@ == service_of(Seq::<Record>::empty()));
        srv.parse_records(msg.questions(), Ghost(Seq::<Record>::empty()));
        assert(Seq::<Record>::empty() + msg.question_records() =~= msg.question_records());
        srv.parse_records(msg.answers(), Ghost(msg.question_records()));
        srv.parse_records(msg.authorities(), Ghost(msg.question_records() + msg.answer_records()));
        srv.parse_records(
            msg.additionals(),
            Ghost(msg.question_records() + msg.answer_records() + msg.authority_records()),
        );
        srv
    }

    /// Folds the records of one section into the service.
    fn parse_records(&mut self, rs: &Vec<Record>, Ghost(done): Ghost<Seq<Record>>)
        requires
            old(self)@ == service_of(done),
        ensures
            final(self)@ == service_of(done + rs@),
            final(self).source() == old(self).source(),
    {
        let mut i: usize = 0;
        assert(done + rs@.subrange(0, 0) =~= done);
        while i < rs.len()
            invariant
                i <= rs@.len(),
                self@ == service_of(done + rs@.subrange(0, i as int)),
                self.source() == old(self).source(),
            decreases rs@.len() - i,
        {
            let ghost next = done + rs@.subrange(0, i + 1);
            assert(next.drop_last() =~= done + rs@.subrange(0, i as int));
            assert(next.last() == rs@[i as int]);
            self.parse_record(&rs[i]);
            i = i + 1;
        }
        assert(done + rs@.subrange(0, i as int) =~= done + rs@);
    }

    /// Folds one record into the service; see `apply_record`.
    fn parse_record(&mut self, record: &Record)
        ensures
            final(self)@ == apply_record(old(self)@, *record),
            final(self).source() == old(self).source(),
    {
        match record.typ() {
            Type::SRV => match SRVRecord::from_record(record) {
                Ok(srv) => {
                    self.name = srv.name().to_owned();
                    self.domain = srv.proto().to_owned();
                    self.host = srv.target().to_owned();
                    self.port = srv.port();
                },
                Err(_) => {},
            },
            Type::TXT => match TXTRecord::from_record(record) {
                Ok(txt) => {
                    let attrs = clone_pairs(txt.attributes());
                    self.attrs = attrs;
                },
                Err(_) => {},
            },
            Type::A => match ARecord::from_record(record) {
                Ok(a) => {
                    self.ipaddrs.push(a.ipaddr());
                },
                Err(_) => {},
            },
            Type::AAAA => match AAAARecord::from_record(record) {
                Ok(a) => {
                    self.ipaddrs.push(a.ipaddr());
                },
                Err(_) => {},
            },
            _ => {},
        }
    }

    /// message returns the message the service was built from.
    pub fn message(&self) -> (r: &Message)
        ensures
            *r == self.source(),
    {
        &self.msg
    }

    /// resource_records returns the typed views of the message's records.
    pub fn resource_records(&self) -> (r: Vec<ResourceRecord>)
        ensures
            views_of(
                r@,
                self.source().answer_records() + self.source().authority_records()
                    + self.source().additional_records(),
            ),
    {
        self.msg.resource_records()
    }

    /// name returns the instance name of the service.
    pub fn name(&self) -> (r: &str)
        ensures
            r@ == self@.name,
    {
        self.name.as_str()
    }

    /// domain returns the domain (protocol) of the service.
    pub fn domain(&self) -> (r: &str)
        ensures
            r@ == self@.domain,
    {
        self.domain.as_str()
    }

    /// host returns the host of the service.
    pub fn host(&self) -> (r: &str)
        ensures
            r@ == self@.host,
    {
        self.host.as_str()
    }

    /// ipaddrs returns the IP addresses of the service, in arrival order.
    pub fn ipaddrs(&self) -> (r: &Vec<IpAddr>)
        ensures
            r@ == self@.ipaddrs,
    {
        &self.ipaddrs
    }

    /// port returns the port of the service.
    pub fn port(&self) -> (r: u16)
        ensures
            r == self@.port,
    {
        self.port
    }

    /// attributes returns the attributes of the service, each key once.
    pub fn attributes(&self) -> (r: &Vec<(String, String)>)
        ensures
            pairs(r@) == self@.attrs,
    {
        &self.attrs
    }

    /// attribute returns the value of the attribute whose key equals `key`
    /// without regard to ASCII case.
    pub fn attribute(&self, key: &str) -> (r: Option<&String>)
        ensures
            r matches Some(v) ==> exists|i: int|
                0 <= i < self@.attrs.len() && same_key(self@.attrs[i].0, key@) && self@.attrs[i].1
                    == v@,
            r is None ==> !has_key(self@.attrs, key@),
    {
        match find_key(&self.attrs, key) {
            Some(i) => {
                assert(self@.attrs[i as int].1 == self.attrs@[i as int].1@);
                Some(&self.attrs[i].1)
            },
            None => None,
        }
    }
}

impl Clone for Service {
    fn clone(&self) -> (r: Service)
        ensures
            r@ == self@,
            r.source()@ == self.source()@,
    {
        let ipaddrs = self.ipaddrs.clone();
        assert(ipaddrs@ =~= self.ipaddrs@);
        Service {
            msg: self.msg.clone(),
            name: self.name.clone(),
            domain: self.domain.clone(),
            host: self.host.clone(),
            ipaddrs,
            port: self.port,
            attrs: clone_pairs(&self.attrs),
        }
    }
}

/// A copy of each key and value.
fn clone_pairs(v: &Vec<(String, String)>) -> (r: Vec<(String, String)>)
    ensures
        pairs(r@) == pairs(v@),
{
    let mut out: Vec<(String, String)> = Vec::new();
    let mut i: usize = 0;
    while i < v.len()
        invariant
            i <= v@.len(),
            pairs(out@) == pairs(v@).subrange(0, i as int),
        decreases v@.len() - i,
    {
        let ghost before = pairs(out@);
        out.push((v[i].0.clone(), v[i].1.clone()));
        assert(pairs(out@) =~= before.push(pairs(v@)[i as int]));
        assert(pairs(v@).subrange(0, i + 1) =~= pairs(v@).subrange(0, i as int).push(pairs(v@)[i as int]));
        i = i + 1;
    }
    assert(pairs(v@).subrange(0, i as int) =~= pairs(v@));
    out
}

} // verus!
