use vstd::prelude::*;

verus! {

/// An IP address as carried by A and AAAA records: four octets, or eight
/// 16-bit groups.
#[derive(Debug, Clone, Copy, PartialEq, Eq, Structural)]
pub enum IpAddr {
    V4(u8, u8, u8, u8),
    V6(u16, u16, u16, u16, u16, u16, u16, u16),
}

} // verus!
