use modbus_dissect::dissect::{handle_tcp_packet, TcpReport};
use modbus_dissect::packet::modbus_tcp::message::{Message, Outcome, Reply, Request};

fn tcp_segment(source: u16, destination: u16, payload: &[u8]) -> Vec<u8> {
    let mut segment = vec![0u8; 20];
    segment[0] = (source >> 8) as u8;
    segment[1] = (source & 0xff) as u8;
    segment[2] = (destination >> 8) as u8;
    segment[3] = (destination & 0xff) as u8;
    segment[12] = 5 << 4;
    segment.extend_from_slice(payload);
    segment
}

#[test]
fn read_coil_status_request_to_port_502() {
    let payload = [0x00, 0x01, 0x00, 0x00, 0x00, 0x06, 0x01, 0x01, 0x00, 0x0A, 0x00, 0x0D];
    let segment = tcp_segment(49152, 502, &payload);
    match handle_tcp_packet(&segment) {
        TcpReport::Segment { source, destination, length, payload: carried, modbus } => {
            assert_eq!(source, 49152);
            assert_eq!(destination, 502);
            assert_eq!(length, 32);
            assert_eq!(carried, payload.to_vec());
            match modbus {
                Outcome::Decoded(Message::Request(Request::ReadCoilStatus(m))) => {
                    assert_eq!(m.transaction, 1);
                    assert_eq!(m.protocol, 0);
                    assert_eq!(m.length, 6);
                    assert_eq!(m.unit, 1);
                    assert_eq!(m.function, 1);
                    assert_eq!(m.reference_number, 10);
                    assert_eq!(m.bit_count, 13);
                    assert!(m.payload.is_empty());
                }
                other => panic!("unexpected outcome: {:?}", other),
            }
        }
        TcpReport::Malformed => panic!("the segment has a full header"),
    }
}

#[test]
fn read_coil_status_reply_from_port_502() {
    let payload = [0x00, 0x01, 0x00, 0x00, 0x00, 0x05, 0x01, 0x01, 0x02, 0xCD, 0x6B];
    let segment = tcp_segment(502, 49152, &payload);
    match handle_tcp_packet(&segment) {
        TcpReport::Segment { modbus, .. } => match modbus {
            Outcome::Decoded(Message::Reply(Reply::ReadCoilStatus(m))) => {
                assert_eq!(m.transaction, 1);
                assert_eq!(m.length, 5);
                assert_eq!(m.function, 1);
                assert_eq!(m.byte_count, 2);
                assert_eq!(m.data, vec![0xCD, 0x6B]);
                assert!(m.payload.is_empty());
            }
            other => panic!("unexpected outcome: {:?}", other),
        },
        TcpReport::Malformed => panic!("the segment has a full header"),
    }
}

#[test]
fn read_holding_register_reply_with_two_registers() {
    let payload = [0x00, 0x02, 0x00, 0x00, 0x00, 0x07, 0x01, 0x03, 0x04, 0x00, 0x2B, 0x00, 0x64];
    let segment = tcp_segment(502, 49152, &payload);
    match handle_tcp_packet(&segment) {
        TcpReport::Segment { modbus, .. } => match modbus {
            Outcome::Decoded(Message::Reply(Reply::ReadHoldingRegister(m))) => {
                assert_eq!(m.byte_count, 4);
                assert_eq!(m.data, vec![0x00, 0x2B, 0x00, 0x64]);
                let registers = m.registers();
                assert_eq!(registers, vec![43, 100]);
                assert_eq!(registers.len() - 1, usize::from(m.byte_count) / 2 - 1);
            }
            other => panic!("unexpected outcome: {:?}", other),
        },
        TcpReport::Malformed => panic!("the segment has a full header"),
    }
}

#[test]
fn read_holding_register_reply_with_byte_count_zero() {
    let payload = [0x00, 0x02, 0x00, 0x00, 0x00, 0x03, 0x01, 0x03, 0x00];
    let segment = tcp_segment(502, 49152, &payload);
    match handle_tcp_packet(&segment) {
        TcpReport::Segment { modbus, .. } => match modbus {
            Outcome::Decoded(Message::Reply(Reply::ReadHoldingRegister(m))) => {
                assert_eq!(m.byte_count, 0);
                assert!(m.registers().is_empty());
            }
            other => panic!("unexpected outcome: {:?}", other),
        },
        TcpReport::Malformed => panic!("the segment has a full header"),
    }
}

#[test]
fn neither_port_502_skips_the_decoder() {
    let payload = [0x00, 0x01, 0x00, 0x00, 0x00, 0x06, 0x01, 0x01, 0x00, 0x0A, 0x00, 0x0D];
    for (source, destination) in [(49152u16, 80u16), (501, 503), (0, 0), (65535, 5020)] {
        let segment = tcp_segment(source, destination, &payload);
        match handle_tcp_packet(&segment) {
            TcpReport::Segment { modbus, .. } => assert_eq!(modbus, Outcome::NotModbus),
            TcpReport::Malformed => panic!("the segment has a full header"),
        }
    }
}
