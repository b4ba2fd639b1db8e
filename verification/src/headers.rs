//! Headers of the link, network and transport layers.
//!
//! The headers are read by pnet. Each reader in this module hands a byte
//! slice to one of pnet's packet views and copies out the fields that the
//! dissection uses; its contract says, over the bytes alone, which fields
//! those are. Verus takes these contracts as given.

use crate::wire::be16;
use pnet::packet::arp::ArpPacket;
use pnet::packet::ethernet::EthernetPacket;
use pnet::packet::icmp::echo_reply::EchoReplyPacket;
use pnet::packet::icmp::echo_request::EchoRequestPacket;
use pnet::packet::icmp::IcmpPacket;
use pnet::packet::icmpv6::Icmpv6Packet;
use pnet::packet::ipv4::Ipv4Packet;
use pnet::packet::ipv6::Ipv6Packet;
use pnet::packet::tcp::TcpPacket;
use pnet::packet::udp::UdpPacket;
use pnet::packet::Packet;
use vstd::prelude::*;

verus! {

/// A 48-bit hardware address, first byte on the wire first.
#[derive(Clone, Copy, Debug, PartialEq, Eq, Structural)]
pub struct MacAddr(pub u8, pub u8, pub u8, pub u8, pub u8, pub u8);

/// An IPv4 address, first byte on the wire first.
#[derive(Clone, Copy, Debug, PartialEq, Eq, Structural)]
pub struct Ipv4Address(pub u8, pub u8, pub u8, pub u8);

/// An IPv6 address as eight 16-bit groups, first group on the wire first.
#[derive(Clone, Copy, Debug, PartialEq, Eq, Structural)]
pub struct Ipv6Address(
    pub u16,
    pub u16,
    pub u16,
    pub u16,
    pub u16,
    pub u16,
    pub u16,
    pub u16,
);

/// The fields of an Ethernet header.
#[derive(Clone, Copy, Debug, PartialEq, Eq, Structural)]
pub struct EthernetHeader {
    pub destination: MacAddr,
    pub source: MacAddr,
    pub ethertype: u16,
}

/// The fields of an ARP packet that the dissection reports.
#[derive(Clone, Copy, Debug, PartialEq, Eq, Structural)]
pub struct ArpHeader {
    pub operation: u16,
    pub sender_proto_addr: Ipv4Address,
    pub target_proto_addr: Ipv4Address,
}

/// The fields of an IPv4 header that the dissection uses.
#[derive(Clone, Copy, Debug, PartialEq, Eq, Structural)]
pub struct Ipv4Header {
    pub source: Ipv4Address,
    pub destination: Ipv4Address,
    pub next_level_protocol: u8,
}

/// The fields of an IPv6 header that the dissection uses.
#[derive(Clone, Copy, Debug, PartialEq, Eq, Structural)]
pub struct Ipv6Header {
    pub source: Ipv6Address,
    pub destination: Ipv6Address,
    pub next_header: u8,
}

/// The fields of a UDP header that the dissection reports.
#[derive(Clone, Copy, Debug, PartialEq, Eq, Structural)]
pub struct UdpHeader {
    pub source: u16,
    pub destination: u16,
    pub length: u16,
}

/// The ports of a TCP header.
#[derive(Clone, Copy, Debug, PartialEq, Eq, Structural)]
pub struct TcpHeader {
    pub source: u16,
    pub destination: u16,
}

/// The two fields that an ICMP echo request or reply adds to the ICMP header.
#[derive(Clone, Copy, Debug, PartialEq, Eq, Structural)]
pub struct IcmpEcho {
    pub identifier: u16,
    pub sequence_number: u16,
}

/// The hardware address in the six bytes from `at` on.
pub open spec fn mac_at(bytes: Seq<u8>, at: int) -> MacAddr {
    MacAddr(bytes[at], bytes[at + 1], bytes[at + 2], bytes[at + 3], bytes[at + 4], bytes[at + 5])
}

/// The IPv4 address in the four bytes from `at` on.
pub open spec fn ipv4_at(bytes: Seq<u8>, at: int) -> Ipv4Address {
    Ipv4Address(bytes[at], bytes[at + 1], bytes[at + 2], bytes[at + 3])
}

/// The IPv6 address in the sixteen bytes from `at` on.
pub open spec fn ipv6_at(bytes: Seq<u8>, at: int) -> Ipv6Address {
    Ipv6Address(
        be16(bytes, at),
        be16(bytes, at + 2),
        be16(bytes, at + 4),
        be16(bytes, at + 6),
        be16(bytes, at + 8),
        be16(bytes, at + 10),
        be16(bytes, at + 12),
        be16(bytes, at + 14),
    )
}

/// The Ethernet header of a frame: fourteen bytes.
pub open spec fn ethernet_header(bytes: Seq<u8>) -> Option<EthernetHeader> {
    if bytes.len() < 14 {
        None
    } else {
        Some(
            EthernetHeader {
                destination: mac_at(bytes, 0),
                source: mac_at(bytes, 6),
                ethertype: be16(bytes, 12),
            },
        )
    }
}

/// What an Ethernet frame carries: all that follows the header.
pub open spec fn ethernet_payload(bytes: Seq<u8>) -> Seq<u8> {
    bytes.skip(14)
}

/// The reported fields of an ARP packet for IPv4 over Ethernet: 28 bytes.
pub open spec fn arp_header(bytes: Seq<u8>) -> Option<ArpHeader> {
    if bytes.len() < 28 {
        None
    } else {
        Some(
            ArpHeader {
                operation: be16(bytes, 6),
                sender_proto_addr: ipv4_at(bytes, 14),
                target_proto_addr: ipv4_at(bytes, 24),
            },
        )
    }
}

/// The used fields of an IPv4 header, whose fixed part is twenty bytes.
pub open spec fn ipv4_header(bytes: Seq<u8>) -> Option<Ipv4Header> {
    if bytes.len() < 20 {
        None
    } else {
        Some(
            Ipv4Header {
                source: ipv4_at(bytes, 12),
                destination: ipv4_at(bytes, 16),
                next_level_protocol: bytes[9],
            },
        )
    }
}

/// The length of an IPv4 header in bytes, as the header declares it: the low
/// half of the first byte, in words of four bytes.
pub open spec fn ipv4_header_length(bytes: Seq<u8>) -> int {
    (bytes[0] % 16) * 4
}

/// Where the payload of an IPv4 packet begins: behind the header and its
/// options, and never within the fixed twenty bytes.
pub open spec fn ipv4_payload_start(bytes: Seq<u8>) -> int {
    if ipv4_header_length(bytes) > 20 {
        ipv4_header_length(bytes)
    } else {
        20
    }
}

/// The number of payload bytes that an IPv4 header declares: the total length
/// less the header length, and zero where that would be negative.
pub open spec fn ipv4_payload_length(bytes: Seq<u8>) -> int {
    if be16(bytes, 2) > ipv4_header_length(bytes) {
        be16(bytes, 2) - ipv4_header_length(bytes)
    } else {
        0
    }
}

/// What an IPv4 packet carries: the declared number of bytes from the start
/// of the payload on, or as many of them as the slice holds.
pub open spec fn ipv4_payload(bytes: Seq<u8>) -> Seq<u8> {
    let start = ipv4_payload_start(bytes);
    let end = start + ipv4_payload_length(bytes);
    if bytes.len() <= start {
        Seq::empty()
    } else if end < bytes.len() {
        bytes.subrange(start, end)
    } else {
        bytes.skip(start)
    }
}

/// The used fields of an IPv6 header: forty bytes.
pub open spec fn ipv6_header(bytes: Seq<u8>) -> Option<Ipv6Header> {
    if bytes.len() < 40 {
        None
    } else {
        Some(
            Ipv6Header {
                source: ipv6_at(bytes, 8),
                destination: ipv6_at(bytes, 24),
                next_header: bytes[6],
            },
        )
    }
}

/// What an IPv6 packet carries: the declared number of bytes behind the fixed
/// header, or as many of them as the slice holds. Extension headers are not
/// unwound.
pub open spec fn ipv6_payload(bytes: Seq<u8>) -> Seq<u8> {
    let end = 40 + be16(bytes, 4);
    if bytes.len() <= 40 {
        Seq::empty()
    } else if end < bytes.len() {
        bytes.subrange(40, end)
    } else {
        bytes.skip(40)
    }
}

/// The reported fields of a UDP header: eight bytes.
pub open spec fn udp_header(bytes: Seq<u8>) -> Option<UdpHeader> {
    if bytes.len() < 8 {
        None
    } else {
        Some(
            UdpHeader {
                source: be16(bytes, 0),
                destination: be16(bytes, 2),
                length: be16(bytes, 4),
            },
        )
    }
}

/// The ports of a TCP header, whose fixed part is twenty bytes.
pub open spec fn tcp_header(bytes: Seq<u8>) -> Option<TcpHeader> {
    if bytes.len() < 20 {
        None
    } else {
        Some(TcpHeader { source: be16(bytes, 0), destination: be16(bytes, 2) })
    }
}

/// Where the payload of a TCP segment begins: behind the header and its
/// options. The data offset is the high half of byte 12, in words of four
/// bytes; one of five words or less stands for the fixed twenty bytes.
pub open spec fn tcp_payload_start(bytes: Seq<u8>) -> int {
    if bytes[12] / 16 > 5 {
        (bytes[12] / 16) * 4
    } else {
        20
    }
}

/// What a TCP segment carries: all that follows the header and its options.
pub open spec fn tcp_payload(bytes: Seq<u8>) -> Seq<u8> {
    if bytes.len() <= tcp_payload_start(bytes) {
        Seq::empty()
    } else {
        bytes.skip(tcp_payload_start(bytes))
    }
}

/// The type of an ICMP or ICMPv6 message, whose header is four bytes.
pub open spec fn icmp_type(bytes: Seq<u8>) -> Option<u8> {
    if bytes.len() < 4 {
        None
    } else {
        Some(bytes[0])
    }
}

/// The identifier and sequence number of an ICMP echo request or reply:
/// eight bytes with the ICMP header.
pub open spec fn icmp_echo(bytes: Seq<u8>) -> Option<IcmpEcho> {
    if bytes.len() < 8 {
        None
    } else {
        Some(IcmpEcho { identifier: be16(bytes, 4), sequence_number: be16(bytes, 6) })
    }
}

/// Reads an Ethernet frame with pnet's `EthernetPacket`: `new`, then
/// `get_destination`, `get_source`, `get_ethertype` and `payload`.
///
/// Believed of pnet: `new` succeeds on fourteen bytes or more; the two
/// addresses are the first twelve bytes, the ethertype the big-endian word
/// behind them, the payload the rest.
#[verifier::external_body]
pub(crate) fn read_ethernet(packet: &[u8]) -> (frame: Option<(EthernetHeader, Vec<u8>)>)
    ensures
        match frame {
            Some((header, payload)) => ethernet_header(packet@) == Some(header) && payload@
                == ethernet_payload(packet@),
            None => ethernet_header(packet@) is None,
        },
{
    let view = EthernetPacket::new(packet)?;
    let d = view.get_destination();
    let s = view.get_source();
    let header = EthernetHeader {
        destination: MacAddr(d.0, d.1, d.2, d.3, d.4, d.5),
        source: MacAddr(s.0, s.1, s.2, s.3, s.4, s.5),
        ethertype: view.get_ethertype().0,
    };
    Some((header, view.payload().to_vec()))
}

/// Reads an ARP packet with pnet's `ArpPacket`: `new`, then `get_operation`,
/// `get_sender_proto_addr` and `get_target_proto_addr`.
///
/// Believed of pnet: `new` succeeds on 28 bytes or more; the operation is
/// the big-endian word at offset 6, the sender's protocol address the four
/// bytes at offset 14, the target's those at offset 24.
#[verifier::external_body]
pub(crate) fn read_arp(packet: &[u8]) -> (header: Option<ArpHeader>)
    ensures
        header == arp_header(packet@),
{
    let view = ArpPacket::new(packet)?;
    let s = view.get_sender_proto_addr().octets();
    let t = view.get_target_proto_addr().octets();
    Some(
        ArpHeader {
            operation: view.get_operation().0,
            sender_proto_addr: Ipv4Address(s[0], s[1], s[2], s[3]),
            target_proto_addr: Ipv4Address(t[0], t[1], t[2], t[3]),
        },
    )
}

/// Reads an IPv4 packet with pnet's `Ipv4Packet`: `new`, then `get_source`,
/// `get_destination`, `get_next_level_protocol` and `payload`.
///
/// Believed of pnet: `new` succeeds on twenty bytes or more; the protocol is
/// the byte at offset 9, the addresses the four bytes at offsets 12 and 16.
/// The payload begins behind the options, whose length is the declared
/// header length less twenty, or zero; it ends where the declared total
/// length less the declared header length says, or where the slice ends.
#[verifier::external_body]
pub(crate) fn read_ipv4(packet: &[u8]) -> (datagram: Option<(Ipv4Header, Vec<u8>)>)
    ensures
        match datagram {
            Some((header, payload)) => ipv4_header(packet@) == Some(header) && payload@
                == ipv4_payload(packet@),
            None => ipv4_header(packet@) is None,
        },
{
    let view = Ipv4Packet::new(packet)?;
    let s = view.get_source().octets();
    let d = view.get_destination().octets();
    let header = Ipv4Header {
        source: Ipv4Address(s[0], s[1], s[2], s[3]),
        destination: Ipv4Address(d[0], d[1], d[2], d[3]),
        next_level_protocol: view.get_next_level_protocol().0,
    };
    Some((header, view.payload().to_vec()))
}

/// Reads an IPv6 packet with pnet's `Ipv6Packet`: `new`, then `get_source`,
/// `get_destination`, `get_next_header` and `payload`.
///
/// Believed of pnet: `new` succeeds on forty bytes or more; the next header
/// is the byte at offset 6, the addresses the eight big-endian words at
/// offsets 8 and 24. The payload begins at offset 40 and ends where the
/// payload length, the big-endian word at offset 4, says, or where the slice
/// ends.
#[verifier::external_body]
pub(crate) fn read_ipv6(packet: &[u8]) -> (datagram: Option<(Ipv6Header, Vec<u8>)>)
    ensures
        match datagram {
            Some((header, payload)) => ipv6_header(packet@) == Some(header) && payload@
                == ipv6_payload(packet@),
            None => ipv6_header(packet@) is None,
        },
{
    let view = Ipv6Packet::new(packet)?;
    let s = view.get_source().segments();
    let d = view.get_destination().segments();
    let header = Ipv6Header {
        source: Ipv6Address(s[0], s[1], s[2], s[3], s[4], s[5], s[6], s[7]),
        destination: Ipv6Address(d[0], d[1], d[2], d[3], d[4], d[5], d[6], d[7]),
        next_header: view.get_next_header().0,
    };
    Some((header, view.payload().to_vec()))
}

/// Reads a UDP header with pnet's `UdpPacket`: `new`, then `get_source`,
/// `get_destination` and `get_length`.
///
/// Believed of pnet: `new` succeeds on eight bytes or more; the three fields
/// are the big-endian words at offsets 0, 2 and 4.
#[verifier::external_body]
pub(crate) fn read_udp(packet: &[u8]) -> (header: Option<UdpHeader>)
    ensures
        header == udp_header(packet@),
{
    let view = UdpPacket::new(packet)?;
    Some(
        UdpHeader {
            source: view.get_source(),
            destination: view.get_destination(),
            length: view.get_length(),
        },
    )
}

/// Reads a TCP segment with pnet's `TcpPacket`: `new`, then `get_source`,
/// `get_destination` and `payload`.
///
/// Believed of pnet: `new` succeeds on twenty bytes or more; the ports are
/// the big-endian words at offsets 0 and 2. The payload begins behind the
/// options, whose length is four times the data offset less twenty where the
/// data offset is over five, and zero otherwise; it is empty where the slice
/// ends before that.
#[verifier::external_body]
pub(crate) fn read_tcp(packet: &[u8]) -> (segment: Option<(TcpHeader, Vec<u8>)>)
    ensures
        match segment {
            Some((header, payload)) => tcp_header(packet@) == Some(header) && payload@
                == tcp_payload(packet@),
            None => tcp_header(packet@) is None,
        },
{
    let view = TcpPacket::new(packet)?;
    let header = TcpHeader { source: view.get_source(), destination: view.get_destination() };
    Some((header, view.payload().to_vec()))
}

/// Reads the type of an ICMP message with pnet's `IcmpPacket`: `new`, then
/// `get_icmp_type`.
///
/// Believed of pnet: `new` succeeds on four bytes or more; the type is the
/// first byte.
#[verifier::external_body]
pub(crate) fn read_icmp_type(packet: &[u8]) -> (kind: Option<u8>)
    ensures
        kind == icmp_type(packet@),
{
    let view = IcmpPacket::new(packet)?;
    Some(view.get_icmp_type().0)
}

/// Reads an ICMP echo reply with pnet's `EchoReplyPacket`: `new`, then
/// `get_identifier` and `get_sequence_number`.
///
/// Believed of pnet: `new` succeeds on eight bytes or more; the identifier
/// and the sequence number are the big-endian words at offsets 4 and 6.
#[verifier::external_body]
pub(crate) fn read_echo_reply(packet: &[u8]) -> (echo: Option<IcmpEcho>)
    ensures
        echo == icmp_echo(packet@),
{
    let view = EchoReplyPacket::new(packet)?;
    Some(
        IcmpEcho {
            identifier: view.get_identifier(),
            sequence_number: view.get_sequence_number(),
        },
    )
}

/// Reads an ICMP echo request with pnet's `EchoRequestPacket`: `new`, then
/// `get_identifier` and `get_sequence_number`.
///
/// Believed of pnet: `new` succeeds on eight bytes or more; the identifier
/// and the sequence number are the big-endian words at offsets 4 and 6.
#[verifier::external_body]
pub(crate) fn read_echo_request(packet: &[u8]) -> (echo: Option<IcmpEcho>)
    ensures
        echo == icmp_echo(packet@),
{
    let view = EchoRequestPacket::new(packet)?;
    Some(
        IcmpEcho {
            identifier: view.get_identifier(),
            sequence_number: view.get_sequence_number(),
        },
    )
}

/// Reads the type of an ICMPv6 message with pnet's `Icmpv6Packet`: `new`,
/// then `get_icmpv6_type`.
///
/// Believed of pnet: `new` succeeds on four bytes or more; the type is the
/// first byte.
#[verifier::external_body]
pub(crate) fn read_icmpv6_type(packet: &[u8]) -> (kind: Option<u8>)
    ensures
        kind == icmp_type(packet@),
{
    let view = Icmpv6Packet::new(packet)?;
    Some(view.get_icmpv6_type().0)
}

} // verus!
