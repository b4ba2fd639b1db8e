//! The chain of handlers that takes a frame apart, layer by layer.
//!
//! Each handler reads the header of its layer, reports what it found and
//! hands the payload to the handler of the next layer. A header that does
//! not fit its slice is reported as malformed at that layer, and the layers
//! above it keep their report. What a handler returns is a function of the
//! bytes alone, stated by the spec function of the same layer.

use crate::headers::{
    arp_header, ethernet_header, ethernet_payload, icmp_echo, icmp_type, ipv4_header,
    ipv4_payload, ipv6_header, ipv6_payload, read_arp, read_echo_reply, read_echo_request,
    read_ethernet, read_icmp_type, read_icmpv6_type, read_ipv4, read_ipv6, read_tcp, read_udp,
    tcp_header, tcp_payload, udp_header, ArpHeader, EthernetHeader, IcmpEcho, Ipv4Header,
    Ipv6Header, MacAddr, UdpHeader,
};
use crate::packet::modbus_tcp::message::{
    decode, direction, direction_of, dissected, Direction, Outcome, OutcomeView, MODBUS_PORT,
};
use crate::wire::{be16, length_of};
use vstd::prelude::*;

verus! {

/// Ethertype of IPv4.
pub const ETHERTYPE_IPV4: u16 = 0x0800;

/// Ethertype of ARP.
pub const ETHERTYPE_ARP: u16 = 0x0806;

/// Ethertype of IPv6.
pub const ETHERTYPE_IPV6: u16 = 0x86DD;

/// Protocol number of ICMP.
pub const PROTOCOL_ICMP: u8 = 1;

/// Protocol number of TCP.
pub const PROTOCOL_TCP: u8 = 6;

/// Protocol number of UDP.
pub const PROTOCOL_UDP: u8 = 17;

/// Protocol number of ICMPv6.
pub const PROTOCOL_ICMPV6: u8 = 58;

/// ICMP type of an echo reply.
pub const ICMP_ECHO_REPLY: u8 = 0;

/// ICMP type of an echo request.
pub const ICMP_ECHO_REQUEST: u8 = 8;

/// An Ethernet frame: its header, what it carries and its length on the
/// wire.
#[derive(Clone, Debug, PartialEq, Eq)]
pub struct EthernetFrame {
    pub header: EthernetHeader,
    pub payload: Vec<u8>,
    pub length: usize,
}

impl EthernetFrame {
    /// The frame that `packet` holds, or `None` where the slice is shorter
    /// than an Ethernet header.
    pub fn new(packet: &[u8]) -> (frame: Option<EthernetFrame>)
        ensures
            match frame {
                Some(f) => ethernet_header(packet@) == Some(f.header) && f.payload@
                    == ethernet_payload(packet@) && f.length == packet@.len(),
                None => ethernet_header(packet@) is None,
            },
    {
        match read_ethernet(packet) {
            Some((header, payload)) => Some(
                EthernetFrame { header, payload, length: packet.len() },
            ),
            None => None,
        }
    }
}

/// What the UDP handler reports.
#[derive(Clone, Copy, Debug, PartialEq, Eq, Structural)]
pub enum UdpReport {
    /// A datagram, by its ports and its declared length.
    Datagram(UdpHeader),
    /// The slice is shorter than a UDP header.
    Malformed,
}

/// What the ICMP handler reports.
#[derive(Clone, Copy, Debug, PartialEq, Eq, Structural)]
pub enum IcmpReport {
    EchoReply(IcmpEcho),
    EchoRequest(IcmpEcho),
    /// A message of any other type, by the number of its type.
    Other { icmp_type: u8 },
    /// The slice is shorter than the header of its message.
    Malformed,
}

/// What the ICMPv6 handler reports.
#[derive(Clone, Copy, Debug, PartialEq, Eq, Structural)]
pub enum Icmpv6Report {
    /// A message, by the number of its type.
    Message { icmpv6_type: u8 },
    /// The slice is shorter than an ICMPv6 header.
    Malformed,
}

/// What the TCP handler reports.
#[derive(Clone, Debug, PartialEq, Eq)]
pub enum TcpReport {
    /// A segment: its ports, the length of the whole segment, what it
    /// carries and what the Modbus decoder made of that.
    Segment { source: u16, destination: u16, length: usize, payload: Vec<u8>, modbus: Outcome },
    /// The slice is shorter than a TCP header.
    Malformed,
}

/// What a [`TcpReport`] holds, as mathematical values.
pub enum TcpReportView {
    Segment { source: u16, destination: u16, length: usize, payload: Seq<u8>, modbus: OutcomeView },
    Malformed,
}

impl View for TcpReport {
    type V = TcpReportView;

    open spec fn view(&self) -> TcpReportView {
        match self {
            TcpReport::Segment { source, destination, length, payload, modbus } => {
                TcpReportView::Segment {
                    source: *source,
                    destination: *destination,
                    length: *length,
                    payload: payload@,
                    modbus: modbus@,
                }
            },
            TcpReport::Malformed => TcpReportView::Malformed,
        }
    }
}

/// What the transport layer reports.
#[derive(Clone, Debug, PartialEq, Eq)]
pub enum TransportReport {
    Udp(UdpReport),
    Tcp(TcpReport),
    Icmp(IcmpReport),
    Icmpv6(Icmpv6Report),
    /// Any other protocol, by its number and the length of what it carries.
    Unknown { protocol: u8, length: usize },
}

/// What a [`TransportReport`] holds, as mathematical values.
pub enum TransportReportView {
    Udp(UdpReport),
    Tcp(TcpReportView),
    Icmp(IcmpReport),
    Icmpv6(Icmpv6Report),
    Unknown { protocol: u8, length: usize },
}

impl View for TransportReport {
    type V = TransportReportView;

    open spec fn view(&self) -> TransportReportView {
        match self {
            TransportReport::Udp(r) => TransportReportView::Udp(*r),
            TransportReport::Tcp(r) => TransportReportView::Tcp(r@),
            TransportReport::Icmp(r) => TransportReportView::Icmp(*r),
            TransportReport::Icmpv6(r) => TransportReportView::Icmpv6(*r),
            TransportReport::Unknown { protocol, length } => TransportReportView::Unknown {
                protocol: *protocol,
                length: *length,
            },
        }
    }
}

/// What the IPv4 handler reports.
#[derive(Clone, Debug, PartialEq, Eq)]
pub enum Ipv4Report {
    /// A packet: its addresses and protocol, and the report of its payload.
    Packet { header: Ipv4Header, transport: TransportReport },
    /// The slice is shorter than an IPv4 header.
    Malformed,
}

/// What an [`Ipv4Report`] holds, as mathematical values.
pub enum Ipv4ReportView {
    Packet { header: Ipv4Header, transport: TransportReportView },
    Malformed,
}

impl View for Ipv4Report {
    type V = Ipv4ReportView;

    open spec fn view(&self) -> Ipv4ReportView {
        match self {
            Ipv4Report::Packet { header, transport } => Ipv4ReportView::Packet {
                header: *header,
                transport: transport@,
            },
            Ipv4Report::Malformed => Ipv4ReportView::Malformed,
        }
    }
}

/// What the IPv6 handler reports.
#[derive(Clone, Debug, PartialEq, Eq)]
pub enum Ipv6Report {
    /// A packet: its addresses and next header, and the report of its
    /// payload.
    Packet { header: Ipv6Header, transport: TransportReport },
    /// The slice is shorter than an IPv6 header.
    Malformed,
}

/// What an [`Ipv6Report`] holds, as mathematical values.
pub enum Ipv6ReportView {
    Packet { header: Ipv6Header, transport: TransportReportView },
    Malformed,
}

impl View for Ipv6Report {
    type V = Ipv6ReportView;

    open spec fn view(&self) -> Ipv6ReportView {
        match self {
            Ipv6Report::Packet { header, transport } => Ipv6ReportView::Packet {
                header: *header,
                transport: transport@,
            },
            Ipv6Report::Malformed => Ipv6ReportView::Malformed,
        }
    }
}

/// What the ARP handler reports.
#[derive(Clone, Copy, Debug, PartialEq, Eq, Structural)]
pub enum ArpReport {
    /// A packet: the hardware addresses of the frame around it, and its own
    /// protocol addresses and operation.
    Packet { source: MacAddr, destination: MacAddr, header: ArpHeader },
    /// The slice is shorter than an ARP packet.
    Malformed,
}

/// What the link layer reports of a frame.
#[derive(Clone, Debug, PartialEq, Eq)]
pub enum FrameReport {
    Ipv4(Ipv4Report),
    Ipv6(Ipv6Report),
    Arp(ArpReport),
    /// A frame of any other ethertype, by its header and its length.
    Unknown { header: EthernetHeader, length: usize },
    /// The slice is shorter than an Ethernet header.
    Malformed,
}

/// What a [`FrameReport`] holds, as mathematical values.
pub enum FrameReportView {
    Ipv4(Ipv4ReportView),
    Ipv6(Ipv6ReportView),
    Arp(ArpReport),
    Unknown { header: EthernetHeader, length: usize },
    Malformed,
}

impl View for FrameReport {
    type V = FrameReportView;

    open spec fn view(&self) -> FrameReportView {
        match self {
            FrameReport::Ipv4(r) => FrameReportView::Ipv4(r@),
            FrameReport::Ipv6(r) => FrameReportView::Ipv6(r@),
            FrameReport::Arp(r) => FrameReportView::Arp(*r),
            FrameReport::Unknown { header, length } => FrameReportView::Unknown {
                header: *header,
                length: *length,
            },
            FrameReport::Malformed => FrameReportView::Malformed,
        }
    }
}

/// The report of the bytes of a UDP datagram.
pub open spec fn udp_report(bytes: Seq<u8>) -> UdpReport {
    match udp_header(bytes) {
        Some(header) => UdpReport::Datagram(header),
        None => UdpReport::Malformed,
    }
}

/// The report of the bytes of an ICMP message. An echo request or reply too
/// short for its identifier and sequence number is malformed.
pub open spec fn icmp_report(bytes: Seq<u8>) -> IcmpReport {
    match icmp_type(bytes) {
        None => IcmpReport::Malformed,
        Some(kind) => if kind == ICMP_ECHO_REPLY {
            match icmp_echo(bytes) {
                Some(echo) => IcmpReport::EchoReply(echo),
                None => IcmpReport::Malformed,
            }
        } else if kind == ICMP_ECHO_REQUEST {
            match icmp_echo(bytes) {
                Some(echo) => IcmpReport::EchoRequest(echo),
                None => IcmpReport::Malformed,
            }
        } else {
            IcmpReport::Other { icmp_type: kind }
        },
    }
}

/// The report of the bytes of an ICMPv6 message.
pub open spec fn icmpv6_report(bytes: Seq<u8>) -> Icmpv6Report {
    match icmp_type(bytes) {
        Some(kind) => Icmpv6Report::Message { icmpv6_type: kind },
        None => Icmpv6Report::Malformed,
    }
}

/// The report of the bytes of a TCP segment. The Modbus decoder sees the
/// payload in the direction that the two ports give.
pub open spec fn tcp_report(bytes: Seq<u8>) -> TcpReportView {
    match tcp_header(bytes) {
        Some(header) => TcpReportView::Segment {
            source: header.source,
            destination: header.destination,
            length: length_of(bytes),
            payload: tcp_payload(bytes),
            modbus: dissected(direction(header.source, header.destination), tcp_payload(bytes)),
        },
        None => TcpReportView::Malformed,
    }
}

/// The report of the bytes that a packet of protocol `protocol` carries.
pub open spec fn transport_report(protocol: u8, bytes: Seq<u8>) -> TransportReportView {
    if protocol == PROTOCOL_UDP {
        TransportReportView::Udp(udp_report(bytes))
    } else if protocol == PROTOCOL_TCP {
        TransportReportView::Tcp(tcp_report(bytes))
    } else if protocol == PROTOCOL_ICMP {
        TransportReportView::Icmp(icmp_report(bytes))
    } else if protocol == PROTOCOL_ICMPV6 {
        TransportReportView::Icmpv6(icmpv6_report(bytes))
    } else {
        TransportReportView::Unknown { protocol, length: length_of(bytes) }
    }
}

/// The report of the bytes of an IPv4 packet.
pub open spec fn ipv4_report(bytes: Seq<u8>) -> Ipv4ReportView {
    match ipv4_header(bytes) {
        Some(header) => Ipv4ReportView::Packet {
            header,
            transport: transport_report(header.next_level_protocol, ipv4_payload(bytes)),
        },
        None => Ipv4ReportView::Malformed,
    }
}

/// The report of the bytes of an IPv6 packet.
pub open spec fn ipv6_report(bytes: Seq<u8>) -> Ipv6ReportView {
    match ipv6_header(bytes) {
        Some(header) => Ipv6ReportView::Packet {
            header,
            transport: transport_report(header.next_header, ipv6_payload(bytes)),
        },
        None => Ipv6ReportView::Malformed,
    }
}

/// The report of an ARP packet in a frame with this header.
pub open spec fn arp_report(ethernet: EthernetHeader, bytes: Seq<u8>) -> ArpReport {
    match arp_header(bytes) {
        Some(header) => ArpReport::Packet {
            source: ethernet.source,
            destination: ethernet.destination,
            header,
        },
        None => ArpReport::Malformed,
    }
}

/// The report of a frame with this header, payload and length.
pub open spec fn ethernet_report(header: EthernetHeader, payload: Seq<u8>, length: usize)
    -> FrameReportView {
    if header.ethertype == ETHERTYPE_IPV4 {
        FrameReportView::Ipv4(ipv4_report(payload))
    } else if header.ethertype == ETHERTYPE_IPV6 {
        FrameReportView::Ipv6(ipv6_report(payload))
    } else if header.ethertype == ETHERTYPE_ARP {
        FrameReportView::Arp(arp_report(header, payload))
    } else {
        FrameReportView::Unknown { header, length }
    }
}

/// The report of the bytes of a frame.
pub open spec fn frame_report(bytes: Seq<u8>) -> FrameReportView {
    match ethernet_header(bytes) {
        Some(header) => ethernet_report(header, ethernet_payload(bytes), length_of(bytes)),
        None => FrameReportView::Malformed,
    }
}

/// Reports a UDP datagram by its ports and its declared length.
pub fn handle_udp_packet(packet: &[u8]) -> (report: UdpReport)
    ensures
        report == udp_report(packet@),
{
    match read_udp(packet) {
        Some(header) => UdpReport::Datagram(header),
        None => UdpReport::Malformed,
    }
}

/// Reports an ICMP message: an echo request or reply by its identifier and
/// sequence number, any other message by its type.
pub fn handle_icmp_packet(packet: &[u8]) -> (report: IcmpReport)
    ensures
        report == icmp_report(packet@),
{
    match read_icmp_type(packet) {
        None => IcmpReport::Malformed,
        Some(kind) => {
            if kind == ICMP_ECHO_REPLY {
                match read_echo_reply(packet) {
                    Some(echo) => IcmpReport::EchoReply(echo),
                    None => IcmpReport::Malformed,
                }
            } else if kind == ICMP_ECHO_REQUEST {
                match read_echo_request(packet) {
                    Some(echo) => IcmpReport::EchoRequest(echo),
                    None => IcmpReport::Malformed,
                }
            } else {
                IcmpReport::Other { icmp_type: kind }
            }
        },
    }
}

/// Reports an ICMPv6 message by its type.
pub fn handle_icmpv6_packet(packet: &[u8]) -> (report: Icmpv6Report)
    ensures
        report == icmpv6_report(packet@),
{
    match read_icmpv6_type(packet) {
        Some(kind) => Icmpv6Report::Message { icmpv6_type: kind },
        None => Icmpv6Report::Malformed,
    }
}

/// Reports a TCP segment and, where one of its ports is the Modbus port,
/// the Modbus message in its payload. The decoder is not called for a
/// segment with the Modbus port on neither side.
pub fn handle_tcp_packet(packet: &[u8]) -> (report: TcpReport)
    ensures
        report@ == tcp_report(packet@),
{
    match read_tcp(packet) {
        Some((header, payload)) => {
            let modbus = match direction_of(header.source, header.destination) {
                Direction::NotModbus => Outcome::NotModbus,
                way => decode(way, payload.as_slice()),
            };
            TcpReport::Segment {
                source: header.source,
                destination: header.destination,
                length: packet.len(),
                payload,
                modbus,
            }
        },
        None => TcpReport::Malformed,
    }
}

/// Hands what an IP packet carries to the handler of its protocol.
pub fn handle_transport_protocol(protocol: u8, packet: &[u8]) -> (report: TransportReport)
    ensures
        report@ == transport_report(protocol, packet@),
{
    if protocol == PROTOCOL_UDP {
        TransportReport::Udp(handle_udp_packet(packet))
    } else if protocol == PROTOCOL_TCP {
        TransportReport::Tcp(handle_tcp_packet(packet))
    } else if protocol == PROTOCOL_ICMP {
        TransportReport::Icmp(handle_icmp_packet(packet))
    } else if protocol == PROTOCOL_ICMPV6 {
        TransportReport::Icmpv6(handle_icmpv6_packet(packet))
    } else {
        TransportReport::Unknown { protocol, length: packet.len() }
    }
}

/// Reports the IPv4 packet that a frame carries.
pub fn handle_ipv4_packet(ethernet: &EthernetFrame) -> (report: Ipv4Report)
    ensures
        report@ == ipv4_report(ethernet.payload@),
{
    match read_ipv4(ethernet.payload.as_slice()) {
        Some((header, payload)) => {
            let transport = handle_transport_protocol(
                header.next_level_protocol,
                payload.as_slice(),
            );
            Ipv4Report::Packet { header, transport }
        },
        None => Ipv4Report::Malformed,
    }
}

/// Reports the IPv6 packet that a frame carries.
pub fn handle_ipv6_packet(ethernet: &EthernetFrame) -> (report: Ipv6Report)
    ensures
        report@ == ipv6_report(ethernet.payload@),
{
    match read_ipv6(ethernet.payload.as_slice()) {
        Some((header, payload)) => {
            let transport = handle_transport_protocol(header.next_header, payload.as_slice());
            Ipv6Report::Packet { header, transport }
        },
        None => Ipv6Report::Malformed,
    }
}

/// Reports the ARP packet that a frame carries.
pub fn handle_arp_packet(ethernet: &EthernetFrame) -> (report: ArpReport)
    ensures
        report == arp_report(ethernet.header, ethernet.payload@),
{
    match read_arp(ethernet.payload.as_slice()) {
        Some(header) => ArpReport::Packet {
            source: ethernet.header.source,
            destination: ethernet.header.destination,
            header,
        },
        None => ArpReport::Malformed,
    }
}

/// Hands what a frame carries to the handler of its ethertype.
pub fn handle_ethernet_frame(ethernet: &EthernetFrame) -> (report: FrameReport)
    ensures
        report@ == ethernet_report(ethernet.header, ethernet.payload@, ethernet.length),
{
    let ethertype = ethernet.header.ethertype;
    if ethertype == ETHERTYPE_IPV4 {
        FrameReport::Ipv4(handle_ipv4_packet(ethernet))
    } else if ethertype == ETHERTYPE_IPV6 {
        FrameReport::Ipv6(handle_ipv6_packet(ethernet))
    } else if ethertype == ETHERTYPE_ARP {
        FrameReport::Arp(handle_arp_packet(ethernet))
    } else {
        FrameReport::Unknown { header: ethernet.header, length: ethernet.length }
    }
}

/// Takes one captured frame apart, from the Ethernet header down.
pub fn dissect(frame: &[u8]) -> (report: FrameReport)
    ensures
        report@ == frame_report(frame@),
{
    match EthernetFrame::new(frame) {
        Some(ethernet) => handle_ethernet_frame(&ethernet),
        None => FrameReport::Malformed,
    }
}

/// A frame of the ethertype of IPv4 or IPv6 is reported as the IP packet
/// that it carries.
pub proof fn lemma_frame_report_by_ethertype(bytes: Seq<u8>)
    requires
        ethernet_header(bytes) is Some,
    ensures
        ethernet_header(bytes)->0.ethertype == ETHERTYPE_IPV4 ==> frame_report(bytes)
            == FrameReportView::Ipv4(ipv4_report(ethernet_payload(bytes))),
        ethernet_header(bytes)->0.ethertype == ETHERTYPE_IPV6 ==> frame_report(bytes)
            == FrameReportView::Ipv6(ipv6_report(ethernet_payload(bytes))),
{
}

/// A TCP segment with the Modbus port on neither side is reported without
/// any Modbus message, whatever it carries.
pub proof fn lemma_tcp_other_ports(bytes: Seq<u8>)
    requires
        bytes.len() >= 20,
        be16(bytes, 0) != MODBUS_PORT,
        be16(bytes, 2) != MODBUS_PORT,
    ensures
        tcp_report(bytes) matches TcpReportView::Segment { modbus, .. } && modbus
            == OutcomeView::NotModbus,
{
}

} // verus!
