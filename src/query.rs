use vstd::prelude::*;

use crate::dns::text::append;

verus! {

/// Query represents a DNS-SD query for a service type in a domain.
pub struct Query {
    service: String,
    domain: String,
}

impl Query {
    /// The service type, such as `_http._tcp`.
    pub closed spec fn spec_service(&self) -> Seq<char> {
        self.service@
    }

    /// The domain, such as `local`.
    pub closed spec fn spec_domain(&self) -> Seq<char> {
        self.domain@
    }

    /// The name queried: `{service}.{domain}`.
    pub open spec fn text(&self) -> Seq<char> {
        self.spec_service() + "."@ + self.spec_domain()
    }

    /// new creates a query with an empty service and domain.
    pub fn new() -> (r: Query)
        ensures
            r.spec_service() == Seq::<char>::empty(),
            r.spec_domain() == Seq::<char>::empty(),
    {
        Query { service: String::new(), domain: String::new() }
    }

    /// with creates a new query with the specified service and domain.
    pub fn with(service: &str, domain: &str) -> (r: Query)
        ensures
            r.spec_service() == service@,
            r.spec_domain() == domain@,
    {
        Query { service: service.to_owned(), domain: domain.to_owned() }
    }

    /// set_service sets the service of the query.
    pub fn set_service(&mut self, service: &str)
        ensures
            final(self).spec_service() == service@,
            final(self).spec_domain() == old(self).spec_domain(),
    {
        self.service = service.to_owned();
    }

    /// service returns the service of the query.
    pub fn service(&self) -> (r: &str)
        ensures
            r@ == self.spec_service(),
    {
        self.service.as_str()
    }

    /// set_domain sets the domain of the query.
    pub fn set_domain(&mut self, domain: &str)
        ensures
            final(self).spec_domain() == domain@,
            final(self).spec_service() == old(self).spec_service(),
    {
        self.domain = domain.to_owned();
    }

    /// domain returns the domain of the query.
    pub fn domain(&self) -> (r: &str)
        ensures
            r@ == self.spec_domain(),
    {
        self.domain.as_str()
    }

    /// to_string returns `{service}.{domain}`.
    pub fn to_string(&self) -> (r: String)
        ensures
            r@ == self.text(),
    {
        let mut s = self.service.clone();
        append(&mut s, ".");
        append(&mut s, self.domain.as_str());
        s
    }
}

} // verus!
