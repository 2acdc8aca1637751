//! Endpoints, transport protocols and the canonical, order-independent
//! identity of a flow between two endpoints.
use vstd::prelude::*;

verus! {

/// An IP address bound to the observing interface.
#[derive(PartialEq, Eq, Structural, Clone, Copy, Debug, Hash)]
pub enum IpAddress {
    /// IPv4 address, as the big-endian number of its four octets.
    V4(u32),
    /// IPv6 address, as the big-endian number of its sixteen octets.
    V6(u128),
}

/// One side of a transport conversation: an IPv4 address and a port.
#[derive(PartialEq, Eq, Structural, Clone, Copy, Debug, Hash, PartialOrd, Ord)]
pub struct Endpoint {
    /// IPv4 address as the big-endian number of its four octets.
    pub ip: u32,
    pub port: u16,
}

/// The transport protocols whose segments are counted.
#[derive(PartialEq, Eq, Structural, Clone, Copy, Debug, Hash, PartialOrd, Ord)]
pub enum Protocol {
    Tcp,
    Udp,
}

/// The canonical identity of a flow: the two endpoints stored in a fixed
/// order, so that both directions of one flow give the same value.
#[derive(PartialEq, Eq, Structural, Clone, Copy, Debug, Hash, PartialOrd, Ord)]
pub struct Connection {
    pub first: Endpoint,
    pub second: Endpoint,
    pub protocol: Protocol,
}

/// The fixed total order on endpoints: by address, then by port.
pub open spec fn endpoint_lt(a: Endpoint, b: Endpoint) -> bool {
    a.ip < b.ip || (a.ip == b.ip && a.port < b.port)
}

/// The connection between `a` and `b`, with the smaller endpoint first.
pub open spec fn canonical(a: Endpoint, b: Endpoint, protocol: Protocol) -> Connection {
    if endpoint_lt(a, b) {
        Connection { first: a, second: b, protocol }
    } else {
        Connection { first: b, second: a, protocol }
    }
}

/// What `Connection::new` yields: no connection from an endpoint to itself.
pub open spec fn connection_of(from: Endpoint, to: Endpoint, protocol: Protocol) -> Option<
    Connection,
> {
    if from == to {
        None
    } else {
        Some(canonical(from, to, protocol))
    }
}

impl Connection {
    /// A connection is well formed when its endpoints are in canonical order.
    pub open spec fn wf(&self) -> bool {
        endpoint_lt(self.first, self.second)
    }

    /// Builds the canonical connection between `from` and `to`; `None` when
    /// the two endpoints are the same.
    pub fn new(from: Endpoint, to: Endpoint, protocol: Protocol) -> (r: Option<Connection>)
        ensures
            r == connection_of(from, to, protocol),
            r matches Some(c) ==> c.wf(),
    {
        if from.ip == to.ip && from.port == to.port {
            None
        } else if endpoint_precedes(&from, &to) {
            Some(Connection { first: from, second: to, protocol })
        } else {
            Some(Connection { first: to, second: from, protocol })
        }
    }
}

/// Whether `a` comes before `b` in the fixed order on endpoints.
pub fn endpoint_precedes(a: &Endpoint, b: &Endpoint) -> (r: bool)
    ensures
        r == endpoint_lt(*a, *b),
{
    a.ip < b.ip || (a.ip == b.ip && a.port < b.port)
}

/// The connection does not depend on which endpoint sent the frame: both
/// directions of a flow between distinct endpoints give one and the same
/// well-formed connection.
pub proof fn lemma_connection_symmetric(a: Endpoint, b: Endpoint, protocol: Protocol)
    requires
        a != b,
    ensures
        connection_of(a, b, protocol) == connection_of(b, a, protocol),
        connection_of(a, b, protocol) matches Some(c) && c.wf(),
{
}

} // verus!
