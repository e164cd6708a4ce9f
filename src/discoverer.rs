use vstd::prelude::*;

use crate::dns::error::{Error, ErrorKind};
use crate::dns::ipaddr::IpAddr;
use crate::dns::message::{message_fits, message_wire, parse_message, Message};
use crate::message::{query_model, QueryMessage};
use crate::query::Query;
use crate::service::{service_of, Service, ServiceModel};

verus! {

/// The mDNS port.
pub const PORT: u16 = 5353;

/// The mDNS IPv6 group, ff02::fb.
pub open spec fn multicast_v6() -> IpAddr {
    IpAddr::V6(0xff02, 0, 0, 0, 0, 0, 0, 0x00fb)
}

/// The mDNS IPv4 group, 224.0.0.251.
pub open spec fn multicast_v4() -> IpAddr {
    IpAddr::V4(224, 0, 0, 251)
}

/// What the transport is asked to do next.
pub enum Action {
    /// Nothing: the request needs no transport work.
    Idle,
    /// Join the groups on the port.
    Join { groups: Vec<IpAddr>, port: u16 },
    /// Send the datagram to the groups.
    Send(Vec<u8>),
    /// Leave the groups and release the sockets.
    Leave,
}

/// The decisions of a DNS-SD browser: whether it runs, what to send, and the
/// services gathered from the datagrams received. The transport that carries
/// out its actions is driven by the caller.
pub struct Discoverer {
    services: Vec<Service>,
    running: bool,
}

impl Discoverer {
    /// Whether the transport has joined the groups.
    pub closed spec fn is_running(&self) -> bool {
        self.running
    }

    /// The services gathered so far, in arrival order.
    pub closed spec fn gathered(&self) -> Seq<ServiceModel> {
        self.services@.map_values(|s: Service| s@)
    }

    /// new creates an idle discoverer with no services.
    pub fn new() -> (r: Discoverer)
        ensures
            !r.is_running(),
            r.gathered() == Seq::<ServiceModel>::empty(),
    {
        let r = Discoverer { services: Vec::new(), running: false };
        assert(r.gathered() =~= Seq::<ServiceModel>::empty());
        r
    }

    /// start asks to join both mDNS groups on port 5353, unless the
    /// discoverer already runs.
    pub fn start(&self) -> (r: Action)
        ensures
            self.is_running() ==> r is Idle,
            !self.is_running() ==> (r matches Action::Join { groups, port } && groups@ == seq![
                multicast_v6(),
                multicast_v4(),
            ] && port == PORT),
    {
        if self.running {
            return Action::Idle;
        }
        let mut groups: Vec<IpAddr> = Vec::new();
        groups.push(IpAddr::V6(0xff02, 0, 0, 0, 0, 0, 0, 0x00fb));
        groups.push(IpAddr::V4(224, 0, 0, 251));
        assert(groups@ =~= seq![multicast_v6(), multicast_v4()]);
        Action::Join { groups, port: PORT }
    }

    /// started records the outcome of a join: the discoverer runs once the
    /// transport has joined.
    pub fn started(&mut self, joined: bool)
        ensures
            final(self).is_running() == (old(self).is_running() || joined),
            final(self).gathered() == old(self).gathered(),
    {
        self.running = self.running || joined;
    }

    /// search builds the datagram of a browse for `query`; it is accepted only
    /// while the discoverer runs, and fails with Encode when the queried name
    /// cannot be written (an empty label, or one longer than 63 bytes).
    pub fn search(&self, query: &Query) -> (r: Result<Action, Error>)
        ensures
            !self.is_running() ==> (r matches Err(e) && e.kind == ErrorKind::Transport),
            self.is_running() ==> (r is Ok <==> message_fits(query_model(*query))),
            self.is_running() ==> (r matches Ok(a) ==> (a matches Action::Send(b) && b@
                == message_wire(query_model(*query)))),
            self.is_running() ==> (r matches Err(e) ==> e.kind == ErrorKind::Encode),
    {
        if !self.running {
            return Err(Error { kind: ErrorKind::Transport, msg: "the discoverer is not started".to_owned() });
        }
        let msg = QueryMessage::new(query);
        match msg.to_bytes() {
            Ok(bytes) => Ok(Action::Send(bytes)),
            Err(e) => Err(e),
        }
    }

    /// stop asks to leave the groups if the discoverer runs; it is idle
    /// afterwards either way.
    pub fn stop(&mut self) -> (r: Action)
        ensures
            old(self).is_running() ==> r is Leave,
            !old(self).is_running() ==> r is Idle,
            !final(self).is_running(),
            final(self).gathered() == old(self).gathered(),
    {
        if self.running {
            self.running = false;
            Action::Leave
        } else {
            Action::Idle
        }
    }

    /// packet_received parses a datagram and, if it is a message, appends the
    /// service it describes; other datagrams are dropped.
    pub fn packet_received(&mut self, datagram: &[u8])
        ensures
            final(self).is_running() == old(self).is_running(),
            parse_message(datagram@) is Err ==> final(self).gathered() == old(self).gathered(),
            parse_message(datagram@) is Ok ==> exists|m: Message|
                m@ == parse_message(datagram@)->Ok_0 && final(self).gathered() == old(
                    self,
                ).gathered().push(service_of(#[trigger] m.all_records())),
    {
        match Message::from_bytes(datagram) {
            Ok(msg) => {
                let service = Service::from_message(&msg);
                let ghost before = self.gathered();
                self.services.push(service);
                assert(self.gathered() =~= before.push(service_of(msg.all_records())));
            },
            Err(_) => {},
        }
    }

    /// services returns a copy of the services gathered so far.
    pub fn services(&self) -> (r: Vec<Service>)
        ensures
            r@.map_values(|s: Service| s@) == self.gathered(),
    {
        let mut out: Vec<Service> = Vec::new();
        let mut i: usize = 0;
        while i < self.services.len()
            invariant
                i <= self.services@.len(),
                out@.map_values(|s: Service| s@) == self.gathered().subrange(0, i as int),
            decreases self.services@.len() - i,
        {
            let ghost before = out@.map_values(|s: Service| s@);
            out.push(self.services[i].clone());
            assert(out@.map_values(|s: Service| s@) =~= before.push(self.gathered()[i as int]));
            assert(self.gathered().subrange(0, i + 1) =~= self.gathered().subrange(0, i as int).push(
                self.gathered()[i as int],
            ));
            i = i + 1;
        }
        assert(self.gathered().subrange(0, i as int) =~= self.gathered());
        out
    }
}

} // verus!
