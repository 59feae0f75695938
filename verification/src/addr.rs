//! Network addresses.

use vstd::prelude::*;

verus! {

/// The address of a host, as the number that it stands for.
#[derive(Debug, Clone, Copy, PartialEq, Eq, Structural)]
pub enum IpAddr {
    V4(u32),
    V6(u128),
}

/// The address of a service: a host and a port. In IPv6 it has the flow information and the
/// scope of the host's address, too.
#[derive(Debug, Clone, Copy, PartialEq, Eq, Structural)]
pub enum SocketAddr {
    V4 { ip: u32, port: u16 },
    V6 { ip: u128, port: u16, flowinfo: u32, scope_id: u32 },
}

} // verus!
