//! Decoding of one captured frame into a byte-counted, direction-annotated
//! flow record.
use vstd::prelude::*;
use crate::connection::{
    canonical, endpoint_lt, Connection, Endpoint, IpAddress, Protocol,
};
use crate::frame::{
    be16, be32, ethernet_fields, ethernet_payload, ethertype, ipv4_fields, ipv4_payload,
    ipv4_payload_start,
    ipv4_total_len, tcp_ports, udp_ports, ETHERNET_HEADER_LEN, IPV4_HEADER_LEN, TCP_HEADER_LEN,
    UDP_HEADER_LEN,
};

verus! {

/// The link-layer type of an IPv4 payload.
pub const ETHERTYPE_IPV4: u16 = 0x0800;
/// The IPv4 protocol number of TCP.
pub const IP_PROTOCOL_TCP: u8 = 6;
/// The IPv4 protocol number of UDP.
pub const IP_PROTOCOL_UDP: u8 = 17;

/// Whether a frame leaves the local host or arrives at it.
#[derive(PartialEq, Eq, Structural, Hash, Debug, Clone, Copy, PartialOrd)]
pub enum Direction {
    Download,
    Upload,
}

/// One accepted frame: its flow, its direction and its IPv4 total length.
#[derive(PartialEq, Eq, Structural, Debug, Clone, Copy)]
pub struct Segment {
    pub connection: Connection,
    pub direction: Direction,
    pub ip_length: u128,
}

/// Whether `source` is one of the local IPv4 addresses.
pub open spec fn is_local(local_ips: Seq<IpAddress>, source: u32) -> bool {
    exists|i: int| 0 <= i < local_ips.len() && local_ips[i] == IpAddress::V4(source)
}

/// Upload for a frame sent from a local address, Download otherwise.
pub open spec fn direction_of(local_ips: Seq<IpAddress>, source: u32) -> Direction {
    if is_local(local_ips, source) {
        Direction::Upload
    } else {
        Direction::Download
    }
}

impl Direction {
    /// The direction of a frame whose IPv4 source address is `source`.
    pub fn new(local_ips: &Vec<IpAddress>, source: u32) -> (r: Direction)
        ensures
            r == direction_of(local_ips@, source),
    {
        let mut i: usize = 0;
        while i < local_ips.len()
            invariant
                0 <= i <= local_ips@.len(),
                forall|j: int| 0 <= j < i ==> local_ips@[j] != IpAddress::V4(source),
            decreases local_ips@.len() - i,
        {
            match local_ips[i] {
                IpAddress::V4(a) => {
                    if a == source {
                        return Direction::Upload;
                    }
                },
                IpAddress::V6(_) => {},
            }
            i = i + 1;
        }
        Direction::Download
    }
}

/// Whether a transport header of `len` bytes lies whole inside the IPv4
/// datagram `ip`: in the captured bytes, and within the total length.
pub open spec fn holds_transport_header(ip: Seq<u8>, len: int) -> bool {
    ipv4_payload(ip).len() >= len && ipv4_payload_start(ip) + len <= ipv4_total_len(ip)
}

/// The endpoints, protocol and IPv4 total length carried by a frame: `None`
/// unless it is a whole Ethernet header with an IPv4 payload whose whole
/// header is followed by a whole TCP or UDP header.
pub open spec fn frame_flow(frame: Seq<u8>) -> Option<(Endpoint, Endpoint, Protocol, u16)> {
    if frame.len() < ETHERNET_HEADER_LEN || ethertype(frame) != ETHERTYPE_IPV4 {
        None
    } else {
        let ip = ethernet_payload(frame);
        let t = ipv4_payload(ip);
        let protocol = if ip.len() < IPV4_HEADER_LEN {
            None
        } else if ip[9] == IP_PROTOCOL_TCP && holds_transport_header(ip, TCP_HEADER_LEN as int) {
            Some(Protocol::Tcp)
        } else if ip[9] == IP_PROTOCOL_UDP && holds_transport_header(ip, UDP_HEADER_LEN as int) {
            Some(Protocol::Udp)
        } else {
            None
        };
        match protocol {
            None => None,
            Some(p) => Some(
                (
                    Endpoint { ip: be32(ip, 12) as u32, port: be16(t, 0) as u16 },
                    Endpoint { ip: be32(ip, 16) as u32, port: be16(t, 2) as u16 },
                    p,
                    ipv4_total_len(ip) as u16,
                ),
            ),
        }
    }
}

/// The record of a frame: its canonical connection, the direction given by
/// its source address, and its IPv4 total length; `None` where the frame
/// carries no TCP or UDP flow or goes from an endpoint to itself.
pub open spec fn segment_of(frame: Seq<u8>, local_ips: Seq<IpAddress>) -> Option<Segment> {
    match frame_flow(frame) {
        None => None,
        Some((from, to, protocol, length)) => if from == to {
            None
        } else {
            Some(
                Segment {
                    connection: canonical(from, to, protocol),
                    direction: direction_of(local_ips, from.ip),
                    ip_length: length as u128,
                },
            )
        },
    }
}

/// Decodes one captured Ethernet frame into a segment, or `None` for a frame
/// that is not whole TCP or UDP over IPv4, or that goes from an endpoint to
/// itself.
pub fn decode_frame(frame: &[u8], local_ips: &Vec<IpAddress>) -> (r: Option<Segment>)
    ensures
        r == segment_of(frame@, local_ips@),
{
    let (ethertype, ip_bytes) = match ethernet_fields(frame) {
        Some(f) => f,
        None => return None,
    };
    if ethertype != ETHERTYPE_IPV4 {
        return None;
    }
    let ip = match ipv4_fields(ip_bytes.as_slice()) {
        Some(h) => h,
        None => return None,
    };
    let header_len: usize = (ip_bytes[0] % 16) as usize * 4;
    let payload_start: usize = if header_len < IPV4_HEADER_LEN {
        IPV4_HEADER_LEN
    } else {
        header_len
    };
    let total_len: usize = ip.total_length as usize;
    let ports = if ip.protocol == IP_PROTOCOL_TCP {
        if payload_start + TCP_HEADER_LEN > total_len {
            return None;
        }
        match tcp_ports(ip.payload.as_slice()) {
            Some(p) => (Protocol::Tcp, p),
            None => return None,
        }
    } else if ip.protocol == IP_PROTOCOL_UDP {
        if payload_start + UDP_HEADER_LEN > total_len {
            return None;
        }
        match udp_ports(ip.payload.as_slice()) {
            Some(p) => (Protocol::Udp, p),
            None => return None,
        }
    } else {
        return None;
    };
    let (protocol, (source_port, destination_port)) = ports;
    let direction = Direction::new(local_ips, ip.source);
    let from = Endpoint { ip: ip.source, port: source_port };
    let to = Endpoint { ip: ip.destination, port: destination_port };
    let connection = match Connection::new(from, to, protocol) {
        Some(c) => c,
        None => return None,
    };
    Some(Segment { connection, direction, ip_length: ip.total_length as u128 })
}

/// Two frames that carry the same flow seen from its two sides (source and
/// destination address and port swapped) give the same connection and the
/// same byte count.
pub proof fn lemma_reversed_frames_share_connection(
    frame: Seq<u8>,
    reversed: Seq<u8>,
    local_ips: Seq<IpAddress>,
    from: Endpoint,
    to: Endpoint,
    protocol: Protocol,
    length: u16,
)
    requires
        from != to,
        frame_flow(frame) == Some((from, to, protocol, length)),
        frame_flow(reversed) == Some((to, from, protocol, length)),
    ensures
        segment_of(frame, local_ips) matches Some(s) && segment_of(reversed, local_ips) matches Some(
            t,
        ) && s.connection == t.connection && s.ip_length == t.ip_length,
{
    assert(!(endpoint_lt(from, to) && endpoint_lt(to, from)));
}

/// The direction of an accepted frame is Upload exactly when its IPv4 source
/// address is local, whether the source endpoint lands first or second in
/// the canonical connection.
pub proof fn lemma_direction_follows_source(
    frame: Seq<u8>,
    local_ips: Seq<IpAddress>,
    from: Endpoint,
    to: Endpoint,
    protocol: Protocol,
    length: u16,
)
    requires
        from != to,
        frame_flow(frame) == Some((from, to, protocol, length)),
    ensures
        segment_of(frame, local_ips) matches Some(s) && (s.direction == Direction::Upload
            <==> is_local(local_ips, from.ip)) && (s.connection.first == from
            <==> endpoint_lt(from, to)) && (s.connection.second == from <==> !endpoint_lt(
            from,
            to,
        )),
{
}

/// A frame whose link-layer type is not IPv4, or whose IPv4 protocol is
/// neither TCP nor UDP, is dropped.
pub proof fn lemma_unsupported_protocol_dropped(frame: Seq<u8>, local_ips: Seq<IpAddress>)
    requires
        frame.len() >= ETHERNET_HEADER_LEN,
        ethertype(frame) != ETHERTYPE_IPV4 || (ethernet_payload(frame).len() >= IPV4_HEADER_LEN
            && ethernet_payload(frame)[9] != IP_PROTOCOL_TCP && ethernet_payload(frame)[9]
            != IP_PROTOCOL_UDP),
    ensures
        segment_of(frame, local_ips) is None,
{
}

/// A frame cut short inside its Ethernet, IPv4, TCP or UDP header is
/// dropped, whether the captured bytes or the IPv4 total length end first.
pub proof fn lemma_truncated_frame_dropped(frame: Seq<u8>, local_ips: Seq<IpAddress>)
    requires
        frame.len() < ETHERNET_HEADER_LEN || ethernet_payload(frame).len() < IPV4_HEADER_LEN || (
        ethernet_payload(frame)[9] == IP_PROTOCOL_TCP && (ipv4_payload(ethernet_payload(frame)).len()
            < TCP_HEADER_LEN || ipv4_payload_start(ethernet_payload(frame)) + TCP_HEADER_LEN
            > ipv4_total_len(ethernet_payload(frame)))) || (ethernet_payload(frame)[9]
            == IP_PROTOCOL_UDP && (ipv4_payload(ethernet_payload(frame)).len() < UDP_HEADER_LEN
            || ipv4_payload_start(ethernet_payload(frame)) + UDP_HEADER_LEN > ipv4_total_len(
            ethernet_payload(frame),
        ))),
    ensures
        segment_of(frame, local_ips) is None,
{
}

/// A frame whose source and destination endpoints are the same is dropped.
pub proof fn lemma_self_flow_dropped(
    frame: Seq<u8>,
    local_ips: Seq<IpAddress>,
    endpoint: Endpoint,
    protocol: Protocol,
    length: u16,
)
    requires
        frame_flow(frame) == Some((endpoint, endpoint, protocol, length)),
    ensures
        segment_of(frame, local_ips) is None,
{
}

} // verus!
