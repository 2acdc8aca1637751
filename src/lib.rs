//! Per-frame decoding of captured Ethernet traffic into canonical TCP/UDP
//! flow records, with the direction of each frame relative to the local host.
pub mod connection;
pub mod frame;
pub mod sniffer;
