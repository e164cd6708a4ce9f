//! The DNS wire format as profiled by Multicast DNS: reading and writing
//! messages, records and names, and the typed views of resource records.

pub mod a_record;
pub mod aaaa_record;
pub mod class;
pub mod error;
pub mod ipaddr;
pub mod laws;
pub mod message;
pub mod nsec_record;
pub mod ptr_record;
pub mod question_record;
pub mod reader;
pub mod record;
pub mod resource_record;
pub mod srv_record;
pub mod text;
pub mod txt_record;
pub mod typ;
pub mod wire;
pub mod writer;
