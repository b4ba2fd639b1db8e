use modbus_dissect::adapter::synthesize_ethernet_frame;
use modbus_dissect::dissect::{dissect, FrameReport, Ipv4Report, Ipv6Report};

fn ipv4_packet() -> Vec<u8> {
    let mut packet = vec![0u8; 20];
    packet[0] = 0x45;
    packet[3] = 20;
    packet[9] = 253;
    packet[12..16].copy_from_slice(&[127, 0, 0, 1]);
    packet[16..20].copy_from_slice(&[127, 0, 0, 2]);
    packet
}

#[test]
fn bare_ipv4_packet_gets_a_zero_header() {
    let packet = ipv4_packet();
    let frame = synthesize_ethernet_frame(&packet, 0).unwrap();
    assert_eq!(frame.len(), 14 + packet.len());
    assert_eq!(&frame[..12], &[0u8; 12]);
    assert_eq!(&frame[12..14], &[0x08, 0x00]);
    assert_eq!(&frame[14..], &packet[..]);
}

#[test]
fn bare_ipv6_packet_gets_a_zero_header() {
    let mut packet = vec![0u8; 40];
    packet[0] = 0x60;
    let frame = synthesize_ethernet_frame(&packet, 0).unwrap();
    assert_eq!(&frame[..12], &[0u8; 12]);
    assert_eq!(&frame[12..14], &[0x86, 0xDD]);
    assert_eq!(&frame[14..], &packet[..]);
    assert!(matches!(dissect(&frame), FrameReport::Ipv6(Ipv6Report::Packet { .. })));
}

#[test]
fn packet_behind_an_empty_header() {
    let mut delivered = vec![0u8; 14];
    delivered.extend_from_slice(&ipv4_packet());
    let frame = synthesize_ethernet_frame(&delivered, 14).unwrap();
    assert_eq!(&frame[..12], &[0u8; 12]);
    assert_eq!(&frame[12..14], &[0x08, 0x00]);
    assert_eq!(&frame[14..], &ipv4_packet()[..]);
}

#[test]
fn synthesized_frame_dissects_as_the_packet() {
    let frame = synthesize_ethernet_frame(&ipv4_packet(), 0).unwrap();
    match dissect(&frame) {
        FrameReport::Ipv4(Ipv4Report::Packet { header, .. }) => {
            assert_eq!(header.next_level_protocol, 253);
        }
        other => panic!("unexpected report: {:?}", other),
    }
}

#[test]
fn one_byte_is_enough_to_tell_the_version() {
    assert_eq!(
        synthesize_ethernet_frame(&[0x4F], 0),
        Some(vec![0, 0, 0, 0, 0, 0, 0, 0, 0, 0, 0, 0, 0x08, 0x00, 0x4F])
    );
    assert_eq!(
        synthesize_ethernet_frame(&[0x60], 0),
        Some(vec![0, 0, 0, 0, 0, 0, 0, 0, 0, 0, 0, 0, 0x86, 0xDD, 0x60])
    );
}

#[test]
fn no_byte_at_the_offset_gives_no_frame() {
    assert_eq!(synthesize_ethernet_frame(&[], 0), None);
    assert_eq!(synthesize_ethernet_frame(&[0u8; 14], 14), None);
    assert_eq!(synthesize_ethernet_frame(&[0x45; 3], 14), None);
}

#[test]
fn other_versions_give_no_frame() {
    for high in 0..16u8 {
        let made = synthesize_ethernet_frame(&[high << 4 | 0x05, 0x00], 0);
        assert_eq!(made.is_some(), high == 4 || high == 6);
    }
}
