//! A Multicast DNS / DNS-SD browser: a byte-accurate DNS message codec, the
//! aggregation of responses into services, and the decisions of a discoverer
//! that drives a multicast transport.

pub mod discoverer;
pub mod dns;
pub mod message;
pub mod query;
pub mod service;

pub use crate::discoverer::Discoverer;
pub use crate::dns::error::Error;
pub use crate::query::Query;
pub use crate::service::Service;
