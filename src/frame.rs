//! Wire layouts of the Ethernet, IPv4, TCP and UDP headers, and the calls
//! into pnet's packet views that read them.
use vstd::prelude::*;
use pnet::packet::ethernet::EthernetPacket;
use pnet::packet::ipv4::Ipv4Packet;
use pnet::packet::tcp::TcpPacket;
use pnet::packet::udp::UdpPacket;
use pnet::packet::Packet;

verus! {

/// Length of an Ethernet header.
pub const ETHERNET_HEADER_LEN: usize = 14;
/// Length of an IPv4 header without options.
pub const IPV4_HEADER_LEN: usize = 20;
/// Length of a TCP header without options.
pub const TCP_HEADER_LEN: usize = 20;
/// Length of a UDP header.
pub const UDP_HEADER_LEN: usize = 8;

/// The big-endian 16-bit number at `s[i]`, `s[i + 1]`.
pub open spec fn be16(s: Seq<u8>, i: int) -> int {
    s[i] as int * 256 + s[i + 1] as int
}

/// The big-endian 32-bit number at `s[i]` .. `s[i + 3]`.
pub open spec fn be32(s: Seq<u8>, i: int) -> int {
    be16(s, i) * 65536 + be16(s, i + 2)
}

/// The link-layer protocol type of an Ethernet frame.
pub open spec fn ethertype(frame: Seq<u8>) -> int {
    be16(frame, 12)
}

/// What follows the Ethernet header.
pub open spec fn ethernet_payload(frame: Seq<u8>) -> Seq<u8> {
    frame.subrange(ETHERNET_HEADER_LEN as int, frame.len() as int)
}

/// The IPv4 header length in bytes, from the low half of the first byte.
pub open spec fn ipv4_header_len(ip: Seq<u8>) -> int {
    (ip[0] % 16) as int * 4
}

/// The IPv4 total length field.
pub open spec fn ipv4_total_len(ip: Seq<u8>) -> int {
    be16(ip, 2)
}

/// Where the IPv4 payload starts: after the options, never inside the
/// fixed header.
pub open spec fn ipv4_payload_start(ip: Seq<u8>) -> int {
    if ipv4_header_len(ip) < IPV4_HEADER_LEN { IPV4_HEADER_LEN as int } else { ipv4_header_len(ip) }
}

/// How many payload bytes the IPv4 header announces.
pub open spec fn ipv4_payload_len(ip: Seq<u8>) -> int {
    if ipv4_total_len(ip) < ipv4_header_len(ip) { 0 } else { ipv4_total_len(ip) - ipv4_header_len(ip) }
}

/// The IPv4 payload: the announced bytes after the header, cut short where
/// the buffer ends.
pub open spec fn ipv4_payload(ip: Seq<u8>) -> Seq<u8> {
    let start = ipv4_payload_start(ip);
    let end = start + ipv4_payload_len(ip);
    if ip.len() <= start {
        Seq::empty()
    } else if end < ip.len() {
        ip.subrange(start, end)
    } else {
        ip.subrange(start, ip.len() as int)
    }
}

/// The fields of an IPv4 header that flow classification reads.
pub struct Ipv4Header {
    /// Source address, big-endian.
    pub source: u32,
    /// Destination address, big-endian.
    pub destination: u32,
    /// The next-level protocol number.
    pub protocol: u8,
    /// The total length field: header and payload.
    pub total_length: u16,
    /// The payload that follows the header.
    pub payload: Vec<u8>,
}

/// Relies on pnet's `EthernetPacket::new` (`None` below 14 bytes), its
/// `get_ethertype` (big-endian bytes 12 and 13) and `payload` (all bytes
/// after the 14th).
#[verifier::external_body]
pub(crate) fn ethernet_fields(frame: &[u8]) -> (r: Option<(u16, Vec<u8>)>)
    ensures
        r is Some <==> frame@.len() >= ETHERNET_HEADER_LEN,
        r matches Some((t, p)) ==> t as int == ethertype(frame@) && p@ == ethernet_payload(frame@),
{
    match EthernetPacket::new(frame) {
        Some(p) => Some((p.get_ethertype().0, p.payload().to_vec())),
        None => None,
    }
}

/// Relies on pnet's `Ipv4Packet::new` (`None` below 20 bytes), its getters
/// of source (bytes 12..16), destination (16..20), next-level protocol
/// (byte 9) and total length (bytes 2 and 3), all big-endian, and on
/// `payload`, bounded by the header length and total length fields; and on
/// std's conversion of an IPv4 address to its big-endian `u32`.
#[verifier::external_body]
pub(crate) fn ipv4_fields(bytes: &[u8]) -> (r: Option<Ipv4Header>)
    ensures
        r is Some <==> bytes@.len() >= IPV4_HEADER_LEN,
        r matches Some(h) ==> {
            &&& h.source as int == be32(bytes@, 12)
            &&& h.destination as int == be32(bytes@, 16)
            &&& h.protocol == bytes@[9]
            &&& h.total_length as int == ipv4_total_len(bytes@)
            &&& h.payload@ == ipv4_payload(bytes@)
        },
{
    match Ipv4Packet::new(bytes) {
        Some(p) => Some(Ipv4Header {
            source: u32::from(p.get_source()),
            destination: u32::from(p.get_destination()),
            protocol: p.get_next_level_protocol().0,
            total_length: p.get_total_length(),
            payload: p.payload().to_vec(),
        }),
        None => None,
    }
}

/// Relies on pnet's `TcpPacket::new` (`None` below 20 bytes) and its
/// getters of the source and destination ports (big-endian bytes 0..2 and
/// 2..4).
#[verifier::external_body]
pub(crate) fn tcp_ports(bytes: &[u8]) -> (r: Option<(u16, u16)>)
    ensures
        r is Some <==> bytes@.len() >= TCP_HEADER_LEN,
        r matches Some((s, d)) ==> s as int == be16(bytes@, 0) && d as int == be16(bytes@, 2),
{
    match TcpPacket::new(bytes) {
        Some(p) => Some((p.get_source(), p.get_destination())),
        None => None,
    }
}

/// Relies on pnet's `UdpPacket::new` (`None` below 8 bytes) and its getters
/// of the source and destination ports (big-endian bytes 0..2 and 2..4).
#[verifier::external_body]
pub(crate) fn udp_ports(bytes: &[u8]) -> (r: Option<(u16, u16)>)
    ensures
        r is Some <==> bytes@.len() >= UDP_HEADER_LEN,
        r matches Some((s, d)) ==> s as int == be16(bytes@, 0) && d as int == be16(bytes@, 2),
{
    match UdpPacket::new(bytes) {
        Some(p) => Some((p.get_source(), p.get_destination())),
        None => None,
    }
}

} // verus!
