//! Network addresses as plain values.

use vstd::prelude::*;

verus! {

/// An IP address, by its bytes in network order.
#[derive(Debug, Clone, Copy, PartialEq, Eq)]
pub enum IpAddr {
    V4([u8; 4]),
    V6([u8; 16]),
}

/// An IP address and a port. Flow information and scope belong to IPv6 addresses,
/// and are zero with others.
#[derive(Debug, Clone, Copy, PartialEq, Eq)]
pub struct SocketAddr {
    pub ip: IpAddr,
    pub port: u16,
    pub flowinfo: u32,
    pub scope_id: u32,
}

/// Where a request is to be relayed to.
#[derive(Debug, Clone, PartialEq, Eq)]
pub enum Addr {
    SocketAddr(SocketAddr),
    Domain(String, u16),
}

} // verus!
