//! Frames from interfaces that deliver no Ethernet header of their own.
//!
//! A loopback interface may put fourteen zero bytes before the IP packet, and
//! a point-to-point interface may deliver the IP packet bare. Either way the
//! dissection wants an Ethernet frame, so one is made: a header with zero
//! addresses and the ethertype of the IP version found, then the IP packet.

use crate::dissect::{
    frame_report, ipv4_report, ipv6_report, lemma_frame_report_by_ethertype, FrameReportView,
    ETHERTYPE_IPV4, ETHERTYPE_IPV6,
};
use crate::headers::{ethernet_header, ethernet_payload, EthernetHeader, MacAddr};
use crate::wire::{be16_bytes, lemma_be16_of_bytes, u8_at};
use vstd::prelude::*;

verus! {

/// The IP version that a packet declares: the high half of its first byte.
pub open spec fn ip_version(first: u8) -> u8 {
    first / 16
}

/// The twelve zero bytes of two absent hardware addresses.
pub open spec fn zero_addresses() -> Seq<u8> {
    Seq::new(12, |i: int| 0u8)
}

/// The frame made for the IP packet that begins at `payload_offset` of
/// `bytes`, or `None` where no byte stands there or the byte declares
/// neither version 4 nor version 6.
pub open spec fn synthesized(bytes: Seq<u8>, payload_offset: int) -> Option<Seq<u8>> {
    if payload_offset < 0 || bytes.len() <= payload_offset {
        None
    } else if ip_version(bytes[payload_offset]) == 4 {
        Some(zero_addresses() + be16_bytes(ETHERTYPE_IPV4) + bytes.skip(payload_offset))
    } else if ip_version(bytes[payload_offset]) == 6 {
        Some(zero_addresses() + be16_bytes(ETHERTYPE_IPV6) + bytes.skip(payload_offset))
    } else {
        None
    }
}

/// Makes an Ethernet frame for the IP packet that begins at `payload_offset`
/// of `packet`: 0 where the interface delivers the packet bare, 14 where it
/// puts an empty header before it. Returns `None` where there is no such
/// packet; the caller then takes `packet` for the frame it is.
pub fn synthesize_ethernet_frame(packet: &[u8], payload_offset: usize) -> (frame: Option<Vec<u8>>)
    ensures
        match frame {
            Some(f) => synthesized(packet@, payload_offset as int) == Some(f@),
            None => synthesized(packet@, payload_offset as int) is None,
        },
{
    if packet.len() <= payload_offset {
        return None;
    }
    let version: u8 = u8_at(packet, payload_offset) / 16;
    let ethertype: u16 = if version == 4 {
        ETHERTYPE_IPV4
    } else if version == 6 {
        ETHERTYPE_IPV6
    } else {
        return None;
    };
    let mut frame: Vec<u8> = Vec::new();
    let mut filled: usize = 0;
    while filled < 12
        invariant
            filled <= 12,
            frame@ == Seq::new(filled as nat, |i: int| 0u8),
        decreases 12 - filled,
    {
        frame.push(0u8);
        filled = filled + 1;
    }
    frame.push((ethertype / 256) as u8);
    frame.push((ethertype % 256) as u8);
    let mut at: usize = payload_offset;
    while at < packet.len()
        invariant
            payload_offset <= at <= packet@.len(),
            frame@ == zero_addresses() + be16_bytes(ethertype) + packet@.subrange(
                payload_offset as int,
                at as int,
            ),
        decreases packet@.len() - at,
    {
        frame.push(packet[at]);
        at = at + 1;
    }
    assert(packet@.subrange(payload_offset as int, at as int) =~= packet@.skip(
        payload_offset as int,
    ));
    Some(frame)
}

/// The ethertype of an IP version: that of IPv4 for version 4, that of IPv6
/// for any other.
pub open spec fn ethertype_of(version: u8) -> u16 {
    if version == 4 {
        ETHERTYPE_IPV4
    } else {
        ETHERTYPE_IPV6
    }
}

/// The frame made for an IP packet has a header with zero addresses and the
/// ethertype of the packet's version, and carries the packet and no more.
pub proof fn lemma_synthesized_header(bytes: Seq<u8>, payload_offset: int)
    requires
        synthesized(bytes, payload_offset) is Some,
    ensures
        ethernet_header(synthesized(bytes, payload_offset)->0) == Some(
            EthernetHeader {
                destination: MacAddr(0, 0, 0, 0, 0, 0),
                source: MacAddr(0, 0, 0, 0, 0, 0),
                ethertype: ethertype_of(ip_version(bytes[payload_offset])),
            },
        ),
        ethernet_payload(synthesized(bytes, payload_offset)->0) == bytes.skip(payload_offset),
{
    let frame = synthesized(bytes, payload_offset)->0;
    lemma_be16_of_bytes(frame, 12, ethertype_of(ip_version(bytes[payload_offset])));
    assert(frame.skip(14) =~= bytes.skip(payload_offset));
}

/// The frame made for an IP packet is reported as that packet: as an IPv4
/// packet where it declares version 4, as an IPv6 packet where it declares
/// version 6.
pub proof fn lemma_synthesized_frame_report(bytes: Seq<u8>, payload_offset: int)
    requires
        synthesized(bytes, payload_offset) is Some,
    ensures
        frame_report(synthesized(bytes, payload_offset)->0) == (if ip_version(
            bytes[payload_offset],
        ) == 4 {
            FrameReportView::Ipv4(ipv4_report(bytes.skip(payload_offset)))
        } else {
            FrameReportView::Ipv6(ipv6_report(bytes.skip(payload_offset)))
        }),
{
    lemma_synthesized_header(bytes, payload_offset);
    lemma_frame_report_by_ethertype(synthesized(bytes, payload_offset)->0);
}

} // verus!
