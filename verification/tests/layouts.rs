use modbus_dissect::packet::modbus_tcp::{
    diagnostics, fetch_communication_event_counter, fetch_communication_event_counter_log,
    force_multiple_coils, force_single_coil, preset_multiple_registers,
    preset_single_register, read_coil_status, read_holding_register, read_input_register,
    read_input_status, report_slave_id, DecodeError, FunctionField, ModbusTCP,
};

#[test]
fn read_coil_status_request_decodes_every_field() {
    let bytes = [
        0x12, 0x34, 0x00, 0x00, 0x00, 0x06, 0x11, 0x01, 0x00, 0x6B, 0x00, 0x03,
        0xAA, 0xBB,
    ];
    let expected = read_coil_status::request::Modbus {
        transaction: 0x1234,
        protocol: 0x0000,
        length: 0x0006,
        unit: 0x11,
        function: 0x01,
        reference_number: 0x006B,
        bit_count: 0x0003,
        payload: vec![0xAA, 0xBB],
    };
    assert_eq!(read_coil_status::request::Modbus::decode(&bytes), Ok(expected));
}

#[test]
fn read_coil_status_request_of_minimum_size() {
    let bytes = [0x12, 0x34, 0x00, 0x00, 0x00, 0x06, 0x11, 0x01, 0x00, 0x6B, 0x00, 0x03];
    assert_eq!(bytes.len(), read_coil_status::request::MINIMUM_PACKET_SIZE);
    let message = read_coil_status::request::Modbus::decode(&bytes).unwrap();
    assert_eq!(message.function, 1);
    assert!(message.payload.is_empty());
}

#[test]
fn read_coil_status_request_truncated() {
    let bytes = [0x12, 0x34, 0x00, 0x00, 0x00, 0x06, 0x11, 0x01, 0x00, 0x6B, 0x00, 0x03];
    for length in 0..bytes.len() {
        let decoded = read_coil_status::request::Modbus::decode(&bytes[..length]);
        assert_eq!(decoded, Err(DecodeError::Truncated));
    }
}

#[test]
fn read_coil_status_request_reference_number_wraps_its_value() {
    let wrapped = read_coil_status::request::ReferenceNumber::new(0xBEEF);
    assert_eq!(wrapped.0, 0xBEEF);
    assert_eq!(wrapped.to_primitive_values(), (0xBEEF,));
    assert_eq!(wrapped, read_coil_status::request::ReferenceNumber(0xBEEF));
}

#[test]
fn read_coil_status_request_bit_count_wraps_its_value() {
    let wrapped = read_coil_status::request::BitCount::new(0xBEEF);
    assert_eq!(wrapped.0, 0xBEEF);
    assert_eq!(wrapped.to_primitive_values(), (0xBEEF,));
    assert_eq!(wrapped, read_coil_status::request::BitCount(0xBEEF));
}

#[test]
fn read_coil_status_reply_decodes_every_field() {
    let bytes = [
        0x12, 0x34, 0x00, 0x00, 0x00, 0x06, 0x11, 0x01, 0x03, 0xCD, 0x6B, 0x05,
        0xAA, 0xBB,
    ];
    let expected = read_coil_status::reply::Modbus {
        transaction: 0x1234,
        protocol: 0x0000,
        length: 0x0006,
        unit: 0x11,
        function: 0x01,
        byte_count: 0x03,
        data: vec![0xCD, 0x6B, 0x05],
        payload: vec![0xAA, 0xBB],
    };
    assert_eq!(read_coil_status::reply::Modbus::decode(&bytes), Ok(expected));
}

#[test]
fn read_coil_status_reply_of_minimum_size() {
    let bytes = [0x12, 0x34, 0x00, 0x00, 0x00, 0x06, 0x11, 0x01, 0x00];
    assert_eq!(bytes.len(), read_coil_status::reply::MINIMUM_PACKET_SIZE);
    let message = read_coil_status::reply::Modbus::decode(&bytes).unwrap();
    assert_eq!(message.function, 1);
    assert_eq!(message.byte_count, 0);
    assert!(message.data.is_empty());
    assert!(message.payload.is_empty());
}

#[test]
fn read_coil_status_reply_truncated() {
    let bytes = [0x12, 0x34, 0x00, 0x00, 0x00, 0x06, 0x11, 0x01, 0x00];
    for length in 0..bytes.len() {
        let decoded = read_coil_status::reply::Modbus::decode(&bytes[..length]);
        assert_eq!(decoded, Err(DecodeError::Truncated));
    }
}

#[test]
fn read_coil_status_reply_byte_count_exceeds_remaining() {
    let bytes = [0x12, 0x34, 0x00, 0x00, 0x00, 0x06, 0x11, 0x01, 0x04, 0xCD, 0x6B, 0x05];
    assert_eq!(read_coil_status::reply::Modbus::decode(&bytes), Err(DecodeError::ByteCount));
}

#[test]
fn read_coil_status_reply_largest_byte_count_without_data() {
    let bytes = [0x12, 0x34, 0x00, 0x00, 0x00, 0x06, 0x11, 0x01, 0xFF];
    assert_eq!(read_coil_status::reply::Modbus::decode(&bytes), Err(DecodeError::ByteCount));
}

#[test]
fn read_coil_status_reply_bytes_behind_the_count_are_payload() {
    let bytes = [0x12, 0x34, 0x00, 0x00, 0x00, 0x06, 0x11, 0x01, 0x01, 0xCD, 0x6B, 0x05];
    let message = read_coil_status::reply::Modbus::decode(&bytes).unwrap();
    assert_eq!(message.data, vec![0xCD]);
    assert_eq!(message.payload, vec![0x6B, 0x05]);
}

#[test]
fn read_coil_status_reply_byte_count_wraps_its_value() {
    let wrapped = read_coil_status::reply::ByteCount::new(0x7F);
    assert_eq!(wrapped.0, 0x7F);
    assert_eq!(wrapped.to_primitive_values(), (0x7F,));
    assert_eq!(wrapped, read_coil_status::reply::ByteCount(0x7F));
}

#[test]
fn read_input_status_request_decodes_every_field() {
    let bytes = [
        0x12, 0x34, 0x00, 0x00, 0x00, 0x06, 0x11, 0x02, 0x00, 0x6B, 0x00, 0x03,
        0xAA, 0xBB,
    ];
    let expected = read_input_status::request::Modbus {
        transaction: 0x1234,
        protocol: 0x0000,
        length: 0x0006,
        unit: 0x11,
        function: 0x02,
        reference_number: 0x006B,
        bit_count: 0x0003,
        payload: vec![0xAA, 0xBB],
    };
    assert_eq!(read_input_status::request::Modbus::decode(&bytes), Ok(expected));
}

#[test]
fn read_input_status_request_of_minimum_size() {
    let bytes = [0x12, 0x34, 0x00, 0x00, 0x00, 0x06, 0x11, 0x02, 0x00, 0x6B, 0x00, 0x03];
    assert_eq!(bytes.len(), read_input_status::request::MINIMUM_PACKET_SIZE);
    let message = read_input_status::request::Modbus::decode(&bytes).unwrap();
    assert_eq!(message.function, 2);
    assert!(message.payload.is_empty());
}

#[test]
fn read_input_status_request_truncated() {
    let bytes = [0x12, 0x34, 0x00, 0x00, 0x00, 0x06, 0x11, 0x02, 0x00, 0x6B, 0x00, 0x03];
    for length in 0..bytes.len() {
        let decoded = read_input_status::request::Modbus::decode(&bytes[..length]);
        assert_eq!(decoded, Err(DecodeError::Truncated));
    }
}

#[test]
fn read_input_status_request_reference_number_wraps_its_value() {
    let wrapped = read_input_status::request::ReferenceNumber::new(0xBEEF);
    assert_eq!(wrapped.0, 0xBEEF);
    assert_eq!(wrapped.to_primitive_values(), (0xBEEF,));
    assert_eq!(wrapped, read_input_status::request::ReferenceNumber(0xBEEF));
}

#[test]
fn read_input_status_request_bit_count_wraps_its_value() {
    let wrapped = read_input_status::request::BitCount::new(0xBEEF);
    assert_eq!(wrapped.0, 0xBEEF);
    assert_eq!(wrapped.to_primitive_values(), (0xBEEF,));
    assert_eq!(wrapped, read_input_status::request::BitCount(0xBEEF));
}

#[test]
fn read_input_status_reply_decodes_every_field() {
    let bytes = [
        0x12, 0x34, 0x00, 0x00, 0x00, 0x06, 0x11, 0x02, 0x03, 0xCD, 0x6B, 0x05,
        0xAA, 0xBB,
    ];
    let expected = read_input_status::reply::Modbus {
        transaction: 0x1234,
        protocol: 0x0000,
        length: 0x0006,
        unit: 0x11,
        function: 0x02,
        byte_count: 0x03,
        data: vec![0xCD, 0x6B, 0x05],
        payload: vec![0xAA, 0xBB],
    };
    assert_eq!(read_input_status::reply::Modbus::decode(&bytes), Ok(expected));
}

#[test]
fn read_input_status_reply_of_minimum_size() {
    let bytes = [0x12, 0x34, 0x00, 0x00, 0x00, 0x06, 0x11, 0x02, 0x00];
    assert_eq!(bytes.len(), read_input_status::reply::MINIMUM_PACKET_SIZE);
    let message = read_input_status::reply::Modbus::decode(&bytes).unwrap();
    assert_eq!(message.function, 2);
    assert_eq!(message.byte_count, 0);
    assert!(message.data.is_empty());
    assert!(message.payload.is_empty());
}

#[test]
fn read_input_status_reply_truncated() {
    let bytes = [0x12, 0x34, 0x00, 0x00, 0x00, 0x06, 0x11, 0x02, 0x00];
    for length in 0..bytes.len() {
        let decoded = read_input_status::reply::Modbus::decode(&bytes[..length]);
        assert_eq!(decoded, Err(DecodeError::Truncated));
    }
}

#[test]
fn read_input_status_reply_byte_count_exceeds_remaining() {
    let bytes = [0x12, 0x34, 0x00, 0x00, 0x00, 0x06, 0x11, 0x02, 0x04, 0xCD, 0x6B, 0x05];
    assert_eq!(read_input_status::reply::Modbus::decode(&bytes), Err(DecodeError::ByteCount));
}

#[test]
fn read_input_status_reply_largest_byte_count_without_data() {
    let bytes = [0x12, 0x34, 0x00, 0x00, 0x00, 0x06, 0x11, 0x02, 0xFF];
    assert_eq!(read_input_status::reply::Modbus::decode(&bytes), Err(DecodeError::ByteCount));
}

#[test]
fn read_input_status_reply_bytes_behind_the_count_are_payload() {
    let bytes = [0x12, 0x34, 0x00, 0x00, 0x00, 0x06, 0x11, 0x02, 0x01, 0xCD, 0x6B, 0x05];
    let message = read_input_status::reply::Modbus::decode(&bytes).unwrap();
    assert_eq!(message.data, vec![0xCD]);
    assert_eq!(message.payload, vec![0x6B, 0x05]);
}

#[test]
fn read_input_status_reply_byte_count_wraps_its_value() {
    let wrapped = read_input_status::reply::ByteCount::new(0x7F);
    assert_eq!(wrapped.0, 0x7F);
    assert_eq!(wrapped.to_primitive_values(), (0x7F,));
    assert_eq!(wrapped, read_input_status::reply::ByteCount(0x7F));
}

#[test]
fn read_holding_register_request_decodes_every_field() {
    let bytes = [
        0x12, 0x34, 0x00, 0x00, 0x00, 0x06, 0x11, 0x03, 0x00, 0x6B, 0x00, 0x03,
        0xAA, 0xBB,
    ];
    let expected = read_holding_register::request::Modbus {
        transaction: 0x1234,
        protocol: 0x0000,
        length: 0x0006,
        unit: 0x11,
        function: 0x03,
        reference_number: 0x006B,
        bit_count: 0x0003,
        payload: vec![0xAA, 0xBB],
    };
    assert_eq!(read_holding_register::request::Modbus::decode(&bytes), Ok(expected));
}

#[test]
fn read_holding_register_request_of_minimum_size() {
    let bytes = [0x12, 0x34, 0x00, 0x00, 0x00, 0x06, 0x11, 0x03, 0x00, 0x6B, 0x00, 0x03];
    assert_eq!(bytes.len(), read_holding_register::request::MINIMUM_PACKET_SIZE);
    let message = read_holding_register::request::Modbus::decode(&bytes).unwrap();
    assert_eq!(message.function, 3);
    assert!(message.payload.is_empty());
}

#[test]
fn read_holding_register_request_truncated() {
    let bytes = [0x12, 0x34, 0x00, 0x00, 0x00, 0x06, 0x11, 0x03, 0x00, 0x6B, 0x00, 0x03];
    for length in 0..bytes.len() {
        let decoded = read_holding_register::request::Modbus::decode(&bytes[..length]);
        assert_eq!(decoded, Err(DecodeError::Truncated));
    }
}

#[test]
fn read_holding_register_request_reference_number_wraps_its_value() {
    let wrapped = read_holding_register::request::ReferenceNumber::new(0xBEEF);
    assert_eq!(wrapped.0, 0xBEEF);
    assert_eq!(wrapped.to_primitive_values(), (0xBEEF,));
    assert_eq!(wrapped, read_holding_register::request::ReferenceNumber(0xBEEF));
}

#[test]
fn read_holding_register_request_bit_count_wraps_its_value() {
    let wrapped = read_holding_register::request::BitCount::new(0xBEEF);
    assert_eq!(wrapped.0, 0xBEEF);
    assert_eq!(wrapped.to_primitive_values(), (0xBEEF,));
    assert_eq!(wrapped, read_holding_register::request::BitCount(0xBEEF));
}

#[test]
fn read_holding_register_reply_decodes_every_field() {
    let bytes = [
        0x12, 0x34, 0x00, 0x00, 0x00, 0x06, 0x11, 0x03, 0x04, 0x00, 0x0A, 0x01,
        0x02, 0xAA, 0xBB,
    ];
    let expected = read_holding_register::reply::Modbus {
        transaction: 0x1234,
        protocol: 0x0000,
        length: 0x0006,
        unit: 0x11,
        function: 0x03,
        byte_count: 0x04,
        data: vec![0x00, 0x0A, 0x01, 0x02],
        payload: vec![0xAA, 0xBB],
    };
    assert_eq!(read_holding_register::reply::Modbus::decode(&bytes), Ok(expected));
}

#[test]
fn read_holding_register_reply_of_minimum_size() {
    let bytes = [0x12, 0x34, 0x00, 0x00, 0x00, 0x06, 0x11, 0x03, 0x00];
    assert_eq!(bytes.len(), read_holding_register::reply::MINIMUM_PACKET_SIZE);
    let message = read_holding_register::reply::Modbus::decode(&bytes).unwrap();
    assert_eq!(message.function, 3);
    assert_eq!(message.byte_count, 0);
    assert!(message.data.is_empty());
    assert!(message.payload.is_empty());
}

#[test]
fn read_holding_register_reply_truncated() {
    let bytes = [0x12, 0x34, 0x00, 0x00, 0x00, 0x06, 0x11, 0x03, 0x00];
    for length in 0..bytes.len() {
        let decoded = read_holding_register::reply::Modbus::decode(&bytes[..length]);
        assert_eq!(decoded, Err(DecodeError::Truncated));
    }
}

#[test]
fn read_holding_register_reply_byte_count_exceeds_remaining() {
    let bytes = [0x12, 0x34, 0x00, 0x00, 0x00, 0x06, 0x11, 0x03, 0x05, 0x00, 0x0A, 0x01, 0x02];
    assert_eq!(read_holding_register::reply::Modbus::decode(&bytes), Err(DecodeError::ByteCount));
}

#[test]
fn read_holding_register_reply_largest_byte_count_without_data() {
    let bytes = [0x12, 0x34, 0x00, 0x00, 0x00, 0x06, 0x11, 0x03, 0xFF];
    assert_eq!(read_holding_register::reply::Modbus::decode(&bytes), Err(DecodeError::ByteCount));
}

#[test]
fn read_holding_register_reply_bytes_behind_the_count_are_payload() {
    let bytes = [0x12, 0x34, 0x00, 0x00, 0x00, 0x06, 0x11, 0x03, 0x01, 0x00, 0x0A, 0x01, 0x02];
    let message = read_holding_register::reply::Modbus::decode(&bytes).unwrap();
    assert_eq!(message.data, vec![0x00]);
    assert_eq!(message.payload, vec![0x0A, 0x01, 0x02]);
}

#[test]
fn read_holding_register_reply_registers() {
    let bytes = [
        0x12, 0x34, 0x00, 0x00, 0x00, 0x06, 0x11, 0x03, 0x04, 0x00, 0x0A, 0x01,
        0x02, 0xAA, 0xBB,
    ];
    let message = read_holding_register::reply::Modbus::decode(&bytes).unwrap();
    assert_eq!(message.registers(), vec![0x000A, 0x0102]);
}

#[test]
fn read_holding_register_reply_byte_count_wraps_its_value() {
    let wrapped = read_holding_register::reply::ByteCount::new(0x7F);
    assert_eq!(wrapped.0, 0x7F);
    assert_eq!(wrapped.to_primitive_values(), (0x7F,));
    assert_eq!(wrapped, read_holding_register::reply::ByteCount(0x7F));
}

#[test]
fn read_input_register_request_decodes_every_field() {
    let bytes = [
        0x12, 0x34, 0x00, 0x00, 0x00, 0x06, 0x11, 0x04, 0x00, 0x6B, 0x00, 0x03,
        0xAA, 0xBB,
    ];
    let expected = read_input_register::request::Modbus {
        transaction: 0x1234,
        protocol: 0x0000,
        length: 0x0006,
        unit: 0x11,
        function: 0x04,
        reference_number: 0x006B,
        bit_count: 0x0003,
        payload: vec![0xAA, 0xBB],
    };
    assert_eq!(read_input_register::request::Modbus::decode(&bytes), Ok(expected));
}

#[test]
fn read_input_register_request_of_minimum_size() {
    let bytes = [0x12, 0x34, 0x00, 0x00, 0x00, 0x06, 0x11, 0x04, 0x00, 0x6B, 0x00, 0x03];
    assert_eq!(bytes.len(), read_input_register::request::MINIMUM_PACKET_SIZE);
    let message = read_input_register::request::Modbus::decode(&bytes).unwrap();
    assert_eq!(message.function, 4);
    assert!(message.payload.is_empty());
}

#[test]
fn read_input_register_request_truncated() {
    let bytes = [0x12, 0x34, 0x00, 0x00, 0x00, 0x06, 0x11, 0x04, 0x00, 0x6B, 0x00, 0x03];
    for length in 0..bytes.len() {
        let decoded = read_input_register::request::Modbus::decode(&bytes[..length]);
        assert_eq!(decoded, Err(DecodeError::Truncated));
    }
}

#[test]
fn read_input_register_request_reference_number_wraps_its_value() {
    let wrapped = read_input_register::request::ReferenceNumber::new(0xBEEF);
    assert_eq!(wrapped.0, 0xBEEF);
    assert_eq!(wrapped.to_primitive_values(), (0xBEEF,));
    assert_eq!(wrapped, read_input_register::request::ReferenceNumber(0xBEEF));
}

#[test]
fn read_input_register_request_bit_count_wraps_its_value() {
    let wrapped = read_input_register::request::BitCount::new(0xBEEF);
    assert_eq!(wrapped.0, 0xBEEF);
    assert_eq!(wrapped.to_primitive_values(), (0xBEEF,));
    assert_eq!(wrapped, read_input_register::request::BitCount(0xBEEF));
}

#[test]
fn read_input_register_reply_decodes_every_field() {
    let bytes = [
        0x12, 0x34, 0x00, 0x00, 0x00, 0x06, 0x11, 0x04, 0x04, 0x00, 0x0A, 0x01,
        0x02, 0xAA, 0xBB,
    ];
    let expected = read_input_register::reply::Modbus {
        transaction: 0x1234,
        protocol: 0x0000,
        length: 0x0006,
        unit: 0x11,
        function: 0x04,
        byte_count: 0x04,
        data: vec![0x00, 0x0A, 0x01, 0x02],
        payload: vec![0xAA, 0xBB],
    };
    assert_eq!(read_input_register::reply::Modbus::decode(&bytes), Ok(expected));
}

#[test]
fn read_input_register_reply_of_minimum_size() {
    let bytes = [0x12, 0x34, 0x00, 0x00, 0x00, 0x06, 0x11, 0x04, 0x00];
    assert_eq!(bytes.len(), read_input_register::reply::MINIMUM_PACKET_SIZE);
    let message = read_input_register::reply::Modbus::decode(&bytes).unwrap();
    assert_eq!(message.function, 4);
    assert_eq!(message.byte_count, 0);
    assert!(message.data.is_empty());
    assert!(message.payload.is_empty());
}

#[test]
fn read_input_register_reply_truncated() {
    let bytes = [0x12, 0x34, 0x00, 0x00, 0x00, 0x06, 0x11, 0x04, 0x00];
    for length in 0..bytes.len() {
        let decoded = read_input_register::reply::Modbus::decode(&bytes[..length]);
        assert_eq!(decoded, Err(DecodeError::Truncated));
    }
}

#[test]
fn read_input_register_reply_byte_count_exceeds_remaining() {
    let bytes = [0x12, 0x34, 0x00, 0x00, 0x00, 0x06, 0x11, 0x04, 0x05, 0x00, 0x0A, 0x01, 0x02];
    assert_eq!(read_input_register::reply::Modbus::decode(&bytes), Err(DecodeError::ByteCount));
}

#[test]
fn read_input_register_reply_largest_byte_count_without_data() {
    let bytes = [0x12, 0x34, 0x00, 0x00, 0x00, 0x06, 0x11, 0x04, 0xFF];
    assert_eq!(read_input_register::reply::Modbus::decode(&bytes), Err(DecodeError::ByteCount));
}

#[test]
fn read_input_register_reply_bytes_behind_the_count_are_payload() {
    let bytes = [0x12, 0x34, 0x00, 0x00, 0x00, 0x06, 0x11, 0x04, 0x01, 0x00, 0x0A, 0x01, 0x02];
    let message = read_input_register::reply::Modbus::decode(&bytes).unwrap();
    assert_eq!(message.data, vec![0x00]);
    assert_eq!(message.payload, vec![0x0A, 0x01, 0x02]);
}

#[test]
fn read_input_register_reply_registers() {
    let bytes = [
        0x12, 0x34, 0x00, 0x00, 0x00, 0x06, 0x11, 0x04, 0x04, 0x00, 0x0A, 0x01,
        0x02, 0xAA, 0xBB,
    ];
    let message = read_input_register::reply::Modbus::decode(&bytes).unwrap();
    assert_eq!(message.registers(), vec![0x000A, 0x0102]);
}

#[test]
fn read_input_register_reply_byte_count_wraps_its_value() {
    let wrapped = read_input_register::reply::ByteCount::new(0x7F);
    assert_eq!(wrapped.0, 0x7F);
    assert_eq!(wrapped.to_primitive_values(), (0x7F,));
    assert_eq!(wrapped, read_input_register::reply::ByteCount(0x7F));
}

#[test]
fn force_single_coil_request_decodes_every_field() {
    let bytes = [
        0x12, 0x34, 0x00, 0x00, 0x00, 0x06, 0x11, 0x05, 0x00, 0x6B, 0xFF, 0x00,
        0xAA, 0xBB,
    ];
    let expected = force_single_coil::request::Modbus {
        transaction: 0x1234,
        protocol: 0x0000,
        length: 0x0006,
        unit: 0x11,
        function: 0x05,
        reference_number: 0x006B,
        data: 0xFF00,
        payload: vec![0xAA, 0xBB],
    };
    assert_eq!(force_single_coil::request::Modbus::decode(&bytes), Ok(expected));
}

#[test]
fn force_single_coil_request_of_minimum_size() {
    let bytes = [0x12, 0x34, 0x00, 0x00, 0x00, 0x06, 0x11, 0x05, 0x00, 0x6B, 0xFF, 0x00];
    assert_eq!(bytes.len(), force_single_coil::request::MINIMUM_PACKET_SIZE);
    let message = force_single_coil::request::Modbus::decode(&bytes).unwrap();
    assert_eq!(message.function, 5);
    assert!(message.payload.is_empty());
}

#[test]
fn force_single_coil_request_truncated() {
    let bytes = [0x12, 0x34, 0x00, 0x00, 0x00, 0x06, 0x11, 0x05, 0x00, 0x6B, 0xFF, 0x00];
    for length in 0..bytes.len() {
        let decoded = force_single_coil::request::Modbus::decode(&bytes[..length]);
        assert_eq!(decoded, Err(DecodeError::Truncated));
    }
}

#[test]
fn force_single_coil_request_reference_number_wraps_its_value() {
    let wrapped = force_single_coil::request::ReferenceNumber::new(0xBEEF);
    assert_eq!(wrapped.0, 0xBEEF);
    assert_eq!(wrapped.to_primitive_values(), (0xBEEF,));
    assert_eq!(wrapped, force_single_coil::request::ReferenceNumber(0xBEEF));
}

#[test]
fn force_single_coil_request_data_wraps_its_value() {
    let wrapped = force_single_coil::request::Data::new(0xBEEF);
    assert_eq!(wrapped.0, 0xBEEF);
    assert_eq!(wrapped.to_primitive_values(), (0xBEEF,));
    assert_eq!(wrapped, force_single_coil::request::Data(0xBEEF));
}

#[test]
fn force_single_coil_reply_decodes_every_field() {
    let bytes = [
        0x12, 0x34, 0x00, 0x00, 0x00, 0x06, 0x11, 0x05, 0x00, 0x6B, 0xFF, 0x00,
        0xAA, 0xBB,
    ];
    let expected = force_single_coil::reply::Modbus {
        transaction: 0x1234,
        protocol: 0x0000,
        length: 0x0006,
        unit: 0x11,
        function: 0x05,
        reference_number: 0x006B,
        data: 0xFF00,
        payload: vec![0xAA, 0xBB],
    };
    assert_eq!(force_single_coil::reply::Modbus::decode(&bytes), Ok(expected));
}

#[test]
fn force_single_coil_reply_of_minimum_size() {
    let bytes = [0x12, 0x34, 0x00, 0x00, 0x00, 0x06, 0x11, 0x05, 0x00, 0x6B, 0xFF, 0x00];
    assert_eq!(bytes.len(), force_single_coil::reply::MINIMUM_PACKET_SIZE);
    let message = force_single_coil::reply::Modbus::decode(&bytes).unwrap();
    assert_eq!(message.function, 5);
    assert!(message.payload.is_empty());
}

#[test]
fn force_single_coil_reply_truncated() {
    let bytes = [0x12, 0x34, 0x00, 0x00, 0x00, 0x06, 0x11, 0x05, 0x00, 0x6B, 0xFF, 0x00];
    for length in 0..bytes.len() {
        let decoded = force_single_coil::reply::Modbus::decode(&bytes[..length]);
        assert_eq!(decoded, Err(DecodeError::Truncated));
    }
}

#[test]
fn force_single_coil_reply_reference_number_wraps_its_value() {
    let wrapped = force_single_coil::reply::ReferenceNumber::new(0xBEEF);
    assert_eq!(wrapped.0, 0xBEEF);
    assert_eq!(wrapped.to_primitive_values(), (0xBEEF,));
    assert_eq!(wrapped, force_single_coil::reply::ReferenceNumber(0xBEEF));
}

#[test]
fn force_single_coil_reply_data_wraps_its_value() {
    let wrapped = force_single_coil::reply::Data::new(0xBEEF);
    assert_eq!(wrapped.0, 0xBEEF);
    assert_eq!(wrapped.to_primitive_values(), (0xBEEF,));
    assert_eq!(wrapped, force_single_coil::reply::Data(0xBEEF));
}

#[test]
fn preset_single_register_request_decodes_every_field() {
    let bytes = [
        0x12, 0x34, 0x00, 0x00, 0x00, 0x06, 0x11, 0x06, 0x00, 0x6B, 0xFF, 0x00,
        0xAA, 0xBB,
    ];
    let expected = preset_single_register::request::Modbus {
        transaction: 0x1234,
        protocol: 0x0000,
        length: 0x0006,
        unit: 0x11,
        function: 0x06,
        reference_number: 0x006B,
        data: 0xFF00,
        payload: vec![0xAA, 0xBB],
    };
    assert_eq!(preset_single_register::request::Modbus::decode(&bytes), Ok(expected));
}

#[test]
fn preset_single_register_request_of_minimum_size() {
    let bytes = [0x12, 0x34, 0x00, 0x00, 0x00, 0x06, 0x11, 0x06, 0x00, 0x6B, 0xFF, 0x00];
    assert_eq!(bytes.len(), preset_single_register::request::MINIMUM_PACKET_SIZE);
    let message = preset_single_register::request::Modbus::decode(&bytes).unwrap();
    assert_eq!(message.function, 6);
    assert!(message.payload.is_empty());
}

#[test]
fn preset_single_register_request_truncated() {
    let bytes = [0x12, 0x34, 0x00, 0x00, 0x00, 0x06, 0x11, 0x06, 0x00, 0x6B, 0xFF, 0x00];
    for length in 0..bytes.len() {
        let decoded = preset_single_register::request::Modbus::decode(&bytes[..length]);
        assert_eq!(decoded, Err(DecodeError::Truncated));
    }
}

#[test]
fn preset_single_register_request_reference_number_wraps_its_value() {
    let wrapped = preset_single_register::request::ReferenceNumber::new(0xBEEF);
    assert_eq!(wrapped.0, 0xBEEF);
    assert_eq!(wrapped.to_primitive_values(), (0xBEEF,));
    assert_eq!(wrapped, preset_single_register::request::ReferenceNumber(0xBEEF));
}

#[test]
fn preset_single_register_request_data_wraps_its_value() {
    let wrapped = preset_single_register::request::Data::new(0xBEEF);
    assert_eq!(wrapped.0, 0xBEEF);
    assert_eq!(wrapped.to_primitive_values(), (0xBEEF,));
    assert_eq!(wrapped, preset_single_register::request::Data(0xBEEF));
}

#[test]
fn preset_single_register_reply_decodes_every_field() {
    let bytes = [
        0x12, 0x34, 0x00, 0x00, 0x00, 0x06, 0x11, 0x06, 0x00, 0x6B, 0xFF, 0x00,
        0xAA, 0xBB,
    ];
    let expected = preset_single_register::reply::Modbus {
        transaction: 0x1234,
        protocol: 0x0000,
        length: 0x0006,
        unit: 0x11,
        function: 0x06,
        reference_number: 0x006B,
        data: 0xFF00,
        payload: vec![0xAA, 0xBB],
    };
    assert_eq!(preset_single_register::reply::Modbus::decode(&bytes), Ok(expected));
}

#[test]
fn preset_single_register_reply_of_minimum_size() {
    let bytes = [0x12, 0x34, 0x00, 0x00, 0x00, 0x06, 0x11, 0x06, 0x00, 0x6B, 0xFF, 0x00];
    assert_eq!(bytes.len(), preset_single_register::reply::MINIMUM_PACKET_SIZE);
    let message = preset_single_register::reply::Modbus::decode(&bytes).unwrap();
    assert_eq!(message.function, 6);
    assert!(message.payload.is_empty());
}

#[test]
fn preset_single_register_reply_truncated() {
    let bytes = [0x12, 0x34, 0x00, 0x00, 0x00, 0x06, 0x11, 0x06, 0x00, 0x6B, 0xFF, 0x00];
    for length in 0..bytes.len() {
        let decoded = preset_single_register::reply::Modbus::decode(&bytes[..length]);
        assert_eq!(decoded, Err(DecodeError::Truncated));
    }
}

#[test]
fn preset_single_register_reply_reference_number_wraps_its_value() {
    let wrapped = preset_single_register::reply::ReferenceNumber::new(0xBEEF);
    assert_eq!(wrapped.0, 0xBEEF);
    assert_eq!(wrapped.to_primitive_values(), (0xBEEF,));
    assert_eq!(wrapped, preset_single_register::reply::ReferenceNumber(0xBEEF));
}

#[test]
fn preset_single_register_reply_data_wraps_its_value() {
    let wrapped = preset_single_register::reply::Data::new(0xBEEF);
    assert_eq!(wrapped.0, 0xBEEF);
    assert_eq!(wrapped.to_primitive_values(), (0xBEEF,));
    assert_eq!(wrapped, preset_single_register::reply::Data(0xBEEF));
}

#[test]
fn diagnostics_request_decodes_every_field() {
    let bytes = [
        0x12, 0x34, 0x00, 0x00, 0x00, 0x06, 0x11, 0x08, 0x00, 0x01, 0xFF, 0x00,
        0xAA, 0xBB,
    ];
    let expected = diagnostics::request::Modbus {
        transaction: 0x1234,
        protocol: 0x0000,
        length: 0x0006,
        unit: 0x11,
        function: 0x08,
        sub_code: 0x0001,
        data: 0xFF00,
        payload: vec![0xAA, 0xBB],
    };
    assert_eq!(diagnostics::request::Modbus::decode(&bytes), Ok(expected));
}

#[test]
fn diagnostics_request_of_minimum_size() {
    let bytes = [0x12, 0x34, 0x00, 0x00, 0x00, 0x06, 0x11, 0x08, 0x00, 0x01, 0xFF, 0x00];
    assert_eq!(bytes.len(), diagnostics::request::MINIMUM_PACKET_SIZE);
    let message = diagnostics::request::Modbus::decode(&bytes).unwrap();
    assert_eq!(message.function, 8);
    assert!(message.payload.is_empty());
}

#[test]
fn diagnostics_request_truncated() {
    let bytes = [0x12, 0x34, 0x00, 0x00, 0x00, 0x06, 0x11, 0x08, 0x00, 0x01, 0xFF, 0x00];
    for length in 0..bytes.len() {
        let decoded = diagnostics::request::Modbus::decode(&bytes[..length]);
        assert_eq!(decoded, Err(DecodeError::Truncated));
    }
}

#[test]
fn diagnostics_request_sub_code_wraps_its_value() {
    let wrapped = diagnostics::request::SubCode::new(0xBEEF);
    assert_eq!(wrapped.0, 0xBEEF);
    assert_eq!(wrapped.to_primitive_values(), (0xBEEF,));
    assert_eq!(wrapped, diagnostics::request::SubCode(0xBEEF));
}

#[test]
fn diagnostics_request_data_wraps_its_value() {
    let wrapped = diagnostics::request::Data::new(0xBEEF);
    assert_eq!(wrapped.0, 0xBEEF);
    assert_eq!(wrapped.to_primitive_values(), (0xBEEF,));
    assert_eq!(wrapped, diagnostics::request::Data(0xBEEF));
}

#[test]
fn diagnostics_reply_decodes_every_field() {
    let bytes = [
        0x12, 0x34, 0x00, 0x00, 0x00, 0x06, 0x11, 0x08, 0x00, 0x01, 0xFF, 0x00,
        0xAA, 0xBB,
    ];
    let expected = diagnostics::reply::Modbus {
        transaction: 0x1234,
        protocol: 0x0000,
        length: 0x0006,
        unit: 0x11,
        function: 0x08,
        sub_code: 0x0001,
        data: 0xFF00,
        payload: vec![0xAA, 0xBB],
    };
    assert_eq!(diagnostics::reply::Modbus::decode(&bytes), Ok(expected));
}

#[test]
fn diagnostics_reply_of_minimum_size() {
    let bytes = [0x12, 0x34, 0x00, 0x00, 0x00, 0x06, 0x11, 0x08, 0x00, 0x01, 0xFF, 0x00];
    assert_eq!(bytes.len(), diagnostics::reply::MINIMUM_PACKET_SIZE);
    let message = diagnostics::reply::Modbus::decode(&bytes).unwrap();
    assert_eq!(message.function, 8);
    assert!(message.payload.is_empty());
}

#[test]
fn diagnostics_reply_truncated() {
    let bytes = [0x12, 0x34, 0x00, 0x00, 0x00, 0x06, 0x11, 0x08, 0x00, 0x01, 0xFF, 0x00];
    for length in 0..bytes.len() {
        let decoded = diagnostics::reply::Modbus::decode(&bytes[..length]);
        assert_eq!(decoded, Err(DecodeError::Truncated));
    }
}

#[test]
fn diagnostics_reply_sub_code_wraps_its_value() {
    let wrapped = diagnostics::reply::SubCode::new(0xBEEF);
    assert_eq!(wrapped.0, 0xBEEF);
    assert_eq!(wrapped.to_primitive_values(), (0xBEEF,));
    assert_eq!(wrapped, diagnostics::reply::SubCode(0xBEEF));
}

#[test]
fn diagnostics_reply_data_wraps_its_value() {
    let wrapped = diagnostics::reply::Data::new(0xBEEF);
    assert_eq!(wrapped.0, 0xBEEF);
    assert_eq!(wrapped.to_primitive_values(), (0xBEEF,));
    assert_eq!(wrapped, diagnostics::reply::Data(0xBEEF));
}

#[test]
fn fetch_communication_event_counter_request_decodes_every_field() {
    let bytes = [0x12, 0x34, 0x00, 0x00, 0x00, 0x06, 0x11, 0x0B, 0xAA, 0xBB];
    let expected = fetch_communication_event_counter::request::Modbus {
        transaction: 0x1234,
        protocol: 0x0000,
        length: 0x0006,
        unit: 0x11,
        function: 0x0B,
        payload: vec![0xAA, 0xBB],
    };
    assert_eq!(fetch_communication_event_counter::request::Modbus::decode(&bytes), Ok(expected));
}

#[test]
fn fetch_communication_event_counter_request_of_minimum_size() {
    let bytes = [0x12, 0x34, 0x00, 0x00, 0x00, 0x06, 0x11, 0x0B];
    assert_eq!(bytes.len(), fetch_communication_event_counter::request::MINIMUM_PACKET_SIZE);
    let message = fetch_communication_event_counter::request::Modbus::decode(&bytes).unwrap();
    assert_eq!(message.function, 11);
    assert!(message.payload.is_empty());
}

#[test]
fn fetch_communication_event_counter_request_truncated() {
    let bytes = [0x12, 0x34, 0x00, 0x00, 0x00, 0x06, 0x11, 0x0B];
    for length in 0..bytes.len() {
        let decoded = fetch_communication_event_counter::request::Modbus::decode(&bytes[..length]);
        assert_eq!(decoded, Err(DecodeError::Truncated));
    }
}

#[test]
fn fetch_communication_event_counter_reply_decodes_every_field() {
    let bytes = [
        0x12, 0x34, 0x00, 0x00, 0x00, 0x06, 0x11, 0x0B, 0xFF, 0xFF, 0x01, 0x08,
        0xAA, 0xBB,
    ];
    let expected = fetch_communication_event_counter::reply::Modbus {
        transaction: 0x1234,
        protocol: 0x0000,
        length: 0x0006,
        unit: 0x11,
        function: 0x0B,
        status: 0xFFFF,
        event_counter: 0x0108,
        payload: vec![0xAA, 0xBB],
    };
    assert_eq!(fetch_communication_event_counter::reply::Modbus::decode(&bytes), Ok(expected));
}

#[test]
fn fetch_communication_event_counter_reply_of_minimum_size() {
    let bytes = [0x12, 0x34, 0x00, 0x00, 0x00, 0x06, 0x11, 0x0B, 0xFF, 0xFF, 0x01, 0x08];
    assert_eq!(bytes.len(), fetch_communication_event_counter::reply::MINIMUM_PACKET_SIZE);
    let message = fetch_communication_event_counter::reply::Modbus::decode(&bytes).unwrap();
    assert_eq!(message.function, 11);
    assert!(message.payload.is_empty());
}

#[test]
fn fetch_communication_event_counter_reply_truncated() {
    let bytes = [0x12, 0x34, 0x00, 0x00, 0x00, 0x06, 0x11, 0x0B, 0xFF, 0xFF, 0x01, 0x08];
    for length in 0..bytes.len() {
        let decoded = fetch_communication_event_counter::reply::Modbus::decode(&bytes[..length]);
        assert_eq!(decoded, Err(DecodeError::Truncated));
    }
}

#[test]
fn fetch_communication_event_counter_reply_status_wraps_its_value() {
    let wrapped = fetch_communication_event_counter::reply::Status::new(0xBEEF);
    assert_eq!(wrapped.0, 0xBEEF);
    assert_eq!(wrapped.to_primitive_values(), (0xBEEF,));
    assert_eq!(wrapped, fetch_communication_event_counter::reply::Status(0xBEEF));
}

#[test]
fn fetch_communication_event_counter_reply_event_counter_wraps_its_value() {
    let wrapped = fetch_communication_event_counter::reply::EventCounter::new(0xBEEF);
    assert_eq!(wrapped.0, 0xBEEF);
    assert_eq!(wrapped.to_primitive_values(), (0xBEEF,));
    assert_eq!(wrapped, fetch_communication_event_counter::reply::EventCounter(0xBEEF));
}

#[test]
fn fetch_communication_event_counter_log_request_decodes_every_field() {
    let bytes = [0x12, 0x34, 0x00, 0x00, 0x00, 0x06, 0x11, 0x0C, 0xAA, 0xBB];
    let expected = fetch_communication_event_counter_log::request::Modbus {
        transaction: 0x1234,
        protocol: 0x0000,
        length: 0x0006,
        unit: 0x11,
        function: 0x0C,
        payload: vec![0xAA, 0xBB],
    };
    assert_eq!(fetch_communication_event_counter_log::request::Modbus::decode(&bytes), Ok(expected));
}

#[test]
fn fetch_communication_event_counter_log_request_of_minimum_size() {
    let bytes = [0x12, 0x34, 0x00, 0x00, 0x00, 0x06, 0x11, 0x0C];
    assert_eq!(bytes.len(), fetch_communication_event_counter_log::request::MINIMUM_PACKET_SIZE);
    let message = fetch_communication_event_counter_log::request::Modbus::decode(&bytes).unwrap();
    assert_eq!(message.function, 12);
    assert!(message.payload.is_empty());
}

#[test]
fn fetch_communication_event_counter_log_request_truncated() {
    let bytes = [0x12, 0x34, 0x00, 0x00, 0x00, 0x06, 0x11, 0x0C];
    for length in 0..bytes.len() {
        let decoded = fetch_communication_event_counter_log::request::Modbus::decode(&bytes[..length]);
        assert_eq!(decoded, Err(DecodeError::Truncated));
    }
}

#[test]
fn fetch_communication_event_counter_log_reply_decodes_every_field() {
    let bytes = [
        0x12, 0x34, 0x00, 0x00, 0x00, 0x06, 0x11, 0x0C, 0x09, 0xFF, 0xFF, 0x01,
        0x08, 0x01, 0x21, 0xCD, 0x6B, 0x05, 0xAA, 0xBB,
    ];
    let expected = fetch_communication_event_counter_log::reply::Modbus {
        transaction: 0x1234,
        protocol: 0x0000,
        length: 0x0006,
        unit: 0x11,
        function: 0x0C,
        byte_count: 0x09,
        status: 0xFFFF,
        event_counter: 0x0108,
        message_counter: 0x0121,
        data: vec![0xCD, 0x6B, 0x05],
        payload: vec![0xAA, 0xBB],
    };
    assert_eq!(fetch_communication_event_counter_log::reply::Modbus::decode(&bytes), Ok(expected));
}

#[test]
fn fetch_communication_event_counter_log_reply_of_minimum_size() {
    let bytes = [
        0x12, 0x34, 0x00, 0x00, 0x00, 0x06, 0x11, 0x0C, 0x06, 0xFF, 0xFF, 0x01,
        0x08, 0x01, 0x21,
    ];
    assert_eq!(bytes.len(), fetch_communication_event_counter_log::reply::MINIMUM_PACKET_SIZE);
    let message = fetch_communication_event_counter_log::reply::Modbus::decode(&bytes).unwrap();
    assert_eq!(message.function, 12);
    assert_eq!(message.byte_count, 6);
    assert!(message.data.is_empty());
    assert!(message.payload.is_empty());
}

#[test]
fn fetch_communication_event_counter_log_reply_truncated() {
    let bytes = [
        0x12, 0x34, 0x00, 0x00, 0x00, 0x06, 0x11, 0x0C, 0x06, 0xFF, 0xFF, 0x01,
        0x08, 0x01, 0x21,
    ];
    for length in 0..bytes.len() {
        let decoded = fetch_communication_event_counter_log::reply::Modbus::decode(&bytes[..length]);
        assert_eq!(decoded, Err(DecodeError::Truncated));
    }
}

#[test]
fn fetch_communication_event_counter_log_reply_byte_count_exceeds_remaining() {
    let bytes = [
        0x12, 0x34, 0x00, 0x00, 0x00, 0x06, 0x11, 0x0C, 0x0A, 0xFF, 0xFF, 0x01,
        0x08, 0x01, 0x21, 0xCD, 0x6B, 0x05,
    ];
    assert_eq!(fetch_communication_event_counter_log::reply::Modbus::decode(&bytes), Err(DecodeError::ByteCount));
}

#[test]
fn fetch_communication_event_counter_log_reply_largest_byte_count_without_data() {
    let bytes = [
        0x12, 0x34, 0x00, 0x00, 0x00, 0x06, 0x11, 0x0C, 0xFF, 0xFF, 0xFF, 0x01,
        0x08, 0x01, 0x21,
    ];
    assert_eq!(fetch_communication_event_counter_log::reply::Modbus::decode(&bytes), Err(DecodeError::ByteCount));
}

#[test]
fn fetch_communication_event_counter_log_reply_bytes_behind_the_count_are_payload() {
    let bytes = [
        0x12, 0x34, 0x00, 0x00, 0x00, 0x06, 0x11, 0x0C, 0x07, 0xFF, 0xFF, 0x01,
        0x08, 0x01, 0x21, 0xCD, 0x6B, 0x05,
    ];
    let message = fetch_communication_event_counter_log::reply::Modbus::decode(&bytes).unwrap();
    assert_eq!(message.data, vec![0xCD]);
    assert_eq!(message.payload, vec![0x6B, 0x05]);
}

#[test]
fn fetch_communication_event_counter_log_reply_byte_count_0_is_under_the_fixed_fields() {
    let bytes = [
        0x12, 0x34, 0x00, 0x00, 0x00, 0x06, 0x11, 0x0C, 0x00, 0xFF, 0xFF, 0x01,
        0x08, 0x01, 0x21, 0xCD, 0x6B, 0x05,
    ];
    assert_eq!(fetch_communication_event_counter_log::reply::Modbus::decode(&bytes), Err(DecodeError::ByteCount));
}

#[test]
fn fetch_communication_event_counter_log_reply_byte_count_5_is_under_the_fixed_fields() {
    let bytes = [
        0x12, 0x34, 0x00, 0x00, 0x00, 0x06, 0x11, 0x0C, 0x05, 0xFF, 0xFF, 0x01,
        0x08, 0x01, 0x21, 0xCD, 0x6B, 0x05,
    ];
    assert_eq!(fetch_communication_event_counter_log::reply::Modbus::decode(&bytes), Err(DecodeError::ByteCount));
}

#[test]
fn fetch_communication_event_counter_log_reply_byte_count_wraps_its_value() {
    let wrapped = fetch_communication_event_counter_log::reply::ByteCount::new(0x7F);
    assert_eq!(wrapped.0, 0x7F);
    assert_eq!(wrapped.to_primitive_values(), (0x7F,));
    assert_eq!(wrapped, fetch_communication_event_counter_log::reply::ByteCount(0x7F));
}

#[test]
fn fetch_communication_event_counter_log_reply_status_wraps_its_value() {
    let wrapped = fetch_communication_event_counter_log::reply::Status::new(0xBEEF);
    assert_eq!(wrapped.0, 0xBEEF);
    assert_eq!(wrapped.to_primitive_values(), (0xBEEF,));
    assert_eq!(wrapped, fetch_communication_event_counter_log::reply::Status(0xBEEF));
}

#[test]
fn fetch_communication_event_counter_log_reply_event_counter_wraps_its_value() {
    let wrapped = fetch_communication_event_counter_log::reply::EventCounter::new(0xBEEF);
    assert_eq!(wrapped.0, 0xBEEF);
    assert_eq!(wrapped.to_primitive_values(), (0xBEEF,));
    assert_eq!(wrapped, fetch_communication_event_counter_log::reply::EventCounter(0xBEEF));
}

#[test]
fn fetch_communication_event_counter_log_reply_message_counter_wraps_its_value() {
    let wrapped = fetch_communication_event_counter_log::reply::MessageCounter::new(0xBEEF);
    assert_eq!(wrapped.0, 0xBEEF);
    assert_eq!(wrapped.to_primitive_values(), (0xBEEF,));
    assert_eq!(wrapped, fetch_communication_event_counter_log::reply::MessageCounter(0xBEEF));
}

#[test]
fn force_multiple_coils_request_decodes_every_field() {
    let bytes = [
        0x12, 0x34, 0x00, 0x00, 0x00, 0x06, 0x11, 0x0F, 0x00, 0x6B, 0x00, 0x02,
        0x03, 0xCD, 0x6B, 0x05, 0xAA, 0xBB,
    ];
    let expected = force_multiple_coils::request::Modbus {
        transaction: 0x1234,
        protocol: 0x0000,
        length: 0x0006,
        unit: 0x11,
        function: 0x0F,
        reference_number: 0x006B,
        register_count: 0x0002,
        byte_count: 0x03,
        data: vec![0xCD, 0x6B, 0x05],
        payload: vec![0xAA, 0xBB],
    };
    assert_eq!(force_multiple_coils::request::Modbus::decode(&bytes), Ok(expected));
}

#[test]
fn force_multiple_coils_request_of_minimum_size() {
    let bytes = [0x12, 0x34, 0x00, 0x00, 0x00, 0x06, 0x11, 0x0F, 0x00, 0x6B, 0x00, 0x02, 0x00];
    assert_eq!(bytes.len(), force_multiple_coils::request::MINIMUM_PACKET_SIZE);
    let message = force_multiple_coils::request::Modbus::decode(&bytes).unwrap();
    assert_eq!(message.function, 15);
    assert_eq!(message.byte_count, 0);
    assert!(message.data.is_empty());
    assert!(message.payload.is_empty());
}

#[test]
fn force_multiple_coils_request_truncated() {
    let bytes = [0x12, 0x34, 0x00, 0x00, 0x00, 0x06, 0x11, 0x0F, 0x00, 0x6B, 0x00, 0x02, 0x00];
    for length in 0..bytes.len() {
        let decoded = force_multiple_coils::request::Modbus::decode(&bytes[..length]);
        assert_eq!(decoded, Err(DecodeError::Truncated));
    }
}

#[test]
fn force_multiple_coils_request_byte_count_exceeds_remaining() {
    let bytes = [
        0x12, 0x34, 0x00, 0x00, 0x00, 0x06, 0x11, 0x0F, 0x00, 0x6B, 0x00, 0x02,
        0x04, 0xCD, 0x6B, 0x05,
    ];
    assert_eq!(force_multiple_coils::request::Modbus::decode(&bytes), Err(DecodeError::ByteCount));
}

#[test]
fn force_multiple_coils_request_largest_byte_count_without_data() {
    let bytes = [0x12, 0x34, 0x00, 0x00, 0x00, 0x06, 0x11, 0x0F, 0x00, 0x6B, 0x00, 0x02, 0xFF];
    assert_eq!(force_multiple_coils::request::Modbus::decode(&bytes), Err(DecodeError::ByteCount));
}

#[test]
fn force_multiple_coils_request_bytes_behind_the_count_are_payload() {
    let bytes = [
        0x12, 0x34, 0x00, 0x00, 0x00, 0x06, 0x11, 0x0F, 0x00, 0x6B, 0x00, 0x02,
        0x01, 0xCD, 0x6B, 0x05,
    ];
    let message = force_multiple_coils::request::Modbus::decode(&bytes).unwrap();
    assert_eq!(message.data, vec![0xCD]);
    assert_eq!(message.payload, vec![0x6B, 0x05]);
}

#[test]
fn force_multiple_coils_request_reference_number_wraps_its_value() {
    let wrapped = force_multiple_coils::request::ReferenceNumber::new(0xBEEF);
    assert_eq!(wrapped.0, 0xBEEF);
    assert_eq!(wrapped.to_primitive_values(), (0xBEEF,));
    assert_eq!(wrapped, force_multiple_coils::request::ReferenceNumber(0xBEEF));
}

#[test]
fn force_multiple_coils_request_register_count_wraps_its_value() {
    let wrapped = force_multiple_coils::request::RegisterCount::new(0xBEEF);
    assert_eq!(wrapped.0, 0xBEEF);
    assert_eq!(wrapped.to_primitive_values(), (0xBEEF,));
    assert_eq!(wrapped, force_multiple_coils::request::RegisterCount(0xBEEF));
}

#[test]
fn force_multiple_coils_request_byte_count_wraps_its_value() {
    let wrapped = force_multiple_coils::request::ByteCount::new(0x7F);
    assert_eq!(wrapped.0, 0x7F);
    assert_eq!(wrapped.to_primitive_values(), (0x7F,));
    assert_eq!(wrapped, force_multiple_coils::request::ByteCount(0x7F));
}

#[test]
fn force_multiple_coils_reply_decodes_every_field() {
    let bytes = [
        0x12, 0x34, 0x00, 0x00, 0x00, 0x06, 0x11, 0x0F, 0x00, 0x6B, 0xFF, 0x00,
        0xAA, 0xBB,
    ];
    let expected = force_multiple_coils::reply::Modbus {
        transaction: 0x1234,
        protocol: 0x0000,
        length: 0x0006,
        unit: 0x11,
        function: 0x0F,
        reference_number: 0x006B,
        data: 0xFF00,
        payload: vec![0xAA, 0xBB],
    };
    assert_eq!(force_multiple_coils::reply::Modbus::decode(&bytes), Ok(expected));
}

#[test]
fn force_multiple_coils_reply_of_minimum_size() {
    let bytes = [0x12, 0x34, 0x00, 0x00, 0x00, 0x06, 0x11, 0x0F, 0x00, 0x6B, 0xFF, 0x00];
    assert_eq!(bytes.len(), force_multiple_coils::reply::MINIMUM_PACKET_SIZE);
    let message = force_multiple_coils::reply::Modbus::decode(&bytes).unwrap();
    assert_eq!(message.function, 15);
    assert!(message.payload.is_empty());
}

#[test]
fn force_multiple_coils_reply_truncated() {
    let bytes = [0x12, 0x34, 0x00, 0x00, 0x00, 0x06, 0x11, 0x0F, 0x00, 0x6B, 0xFF, 0x00];
    for length in 0..bytes.len() {
        let decoded = force_multiple_coils::reply::Modbus::decode(&bytes[..length]);
        assert_eq!(decoded, Err(DecodeError::Truncated));
    }
}

#[test]
fn force_multiple_coils_reply_reference_number_wraps_its_value() {
    let wrapped = force_multiple_coils::reply::ReferenceNumber::new(0xBEEF);
    assert_eq!(wrapped.0, 0xBEEF);
    assert_eq!(wrapped.to_primitive_values(), (0xBEEF,));
    assert_eq!(wrapped, force_multiple_coils::reply::ReferenceNumber(0xBEEF));
}

#[test]
fn force_multiple_coils_reply_data_wraps_its_value() {
    let wrapped = force_multiple_coils::reply::Data::new(0xBEEF);
    assert_eq!(wrapped.0, 0xBEEF);
    assert_eq!(wrapped.to_primitive_values(), (0xBEEF,));
    assert_eq!(wrapped, force_multiple_coils::reply::Data(0xBEEF));
}

#[test]
fn preset_multiple_registers_request_decodes_every_field() {
    let bytes = [
        0x12, 0x34, 0x00, 0x00, 0x00, 0x06, 0x11, 0x10, 0x00, 0x6B, 0x00, 0x02,
        0x04, 0x00, 0x0A, 0x01, 0x02, 0xAA, 0xBB,
    ];
    let expected = preset_multiple_registers::request::Modbus {
        transaction: 0x1234,
        protocol: 0x0000,
        length: 0x0006,
        unit: 0x11,
        function: 0x10,
        reference_number: 0x006B,
        register_count: 0x0002,
        byte_count: 0x04,
        data: vec![0x00, 0x0A, 0x01, 0x02],
        payload: vec![0xAA, 0xBB],
    };
    assert_eq!(preset_multiple_registers::request::Modbus::decode(&bytes), Ok(expected));
}

#[test]
fn preset_multiple_registers_request_of_minimum_size() {
    let bytes = [0x12, 0x34, 0x00, 0x00, 0x00, 0x06, 0x11, 0x10, 0x00, 0x6B, 0x00, 0x02, 0x00];
    assert_eq!(bytes.len(), preset_multiple_registers::request::MINIMUM_PACKET_SIZE);
    let message = preset_multiple_registers::request::Modbus::decode(&bytes).unwrap();
    assert_eq!(message.function, 16);
    assert_eq!(message.byte_count, 0);
    assert!(message.data.is_empty());
    assert!(message.payload.is_empty());
}

#[test]
fn preset_multiple_registers_request_truncated() {
    let bytes = [0x12, 0x34, 0x00, 0x00, 0x00, 0x06, 0x11, 0x10, 0x00, 0x6B, 0x00, 0x02, 0x00];
    for length in 0..bytes.len() {
        let decoded = preset_multiple_registers::request::Modbus::decode(&bytes[..length]);
        assert_eq!(decoded, Err(DecodeError::Truncated));
    }
}

#[test]
fn preset_multiple_registers_request_byte_count_exceeds_remaining() {
    let bytes = [
        0x12, 0x34, 0x00, 0x00, 0x00, 0x06, 0x11, 0x10, 0x00, 0x6B, 0x00, 0x02,
        0x05, 0x00, 0x0A, 0x01, 0x02,
    ];
    assert_eq!(preset_multiple_registers::request::Modbus::decode(&bytes), Err(DecodeError::ByteCount));
}

#[test]
fn preset_multiple_registers_request_largest_byte_count_without_data() {
    let bytes = [0x12, 0x34, 0x00, 0x00, 0x00, 0x06, 0x11, 0x10, 0x00, 0x6B, 0x00, 0x02, 0xFF];
    assert_eq!(preset_multiple_registers::request::Modbus::decode(&bytes), Err(DecodeError::ByteCount));
}

#[test]
fn preset_multiple_registers_request_bytes_behind_the_count_are_payload() {
    let bytes = [
        0x12, 0x34, 0x00, 0x00, 0x00, 0x06, 0x11, 0x10, 0x00, 0x6B, 0x00, 0x02,
        0x01, 0x00, 0x0A, 0x01, 0x02,
    ];
    let message = preset_multiple_registers::request::Modbus::decode(&bytes).unwrap();
    assert_eq!(message.data, vec![0x00]);
    assert_eq!(message.payload, vec![0x0A, 0x01, 0x02]);
}

#[test]
fn preset_multiple_registers_request_registers() {
    let bytes = [
        0x12, 0x34, 0x00, 0x00, 0x00, 0x06, 0x11, 0x10, 0x00, 0x6B, 0x00, 0x02,
        0x04, 0x00, 0x0A, 0x01, 0x02, 0xAA, 0xBB,
    ];
    let message = preset_multiple_registers::request::Modbus::decode(&bytes).unwrap();
    assert_eq!(message.registers(), vec![0x000A, 0x0102]);
}

#[test]
fn preset_multiple_registers_request_reference_number_wraps_its_value() {
    let wrapped = preset_multiple_registers::request::ReferenceNumber::new(0xBEEF);
    assert_eq!(wrapped.0, 0xBEEF);
    assert_eq!(wrapped.to_primitive_values(), (0xBEEF,));
    assert_eq!(wrapped, preset_multiple_registers::request::ReferenceNumber(0xBEEF));
}

#[test]
fn preset_multiple_registers_request_register_count_wraps_its_value() {
    let wrapped = preset_multiple_registers::request::RegisterCount::new(0xBEEF);
    assert_eq!(wrapped.0, 0xBEEF);
    assert_eq!(wrapped.to_primitive_values(), (0xBEEF,));
    assert_eq!(wrapped, preset_multiple_registers::request::RegisterCount(0xBEEF));
}

#[test]
fn preset_multiple_registers_request_byte_count_wraps_its_value() {
    let wrapped = preset_multiple_registers::request::ByteCount::new(0x7F);
    assert_eq!(wrapped.0, 0x7F);
    assert_eq!(wrapped.to_primitive_values(), (0x7F,));
    assert_eq!(wrapped, preset_multiple_registers::request::ByteCount(0x7F));
}

#[test]
fn preset_multiple_registers_reply_decodes_every_field() {
    let bytes = [
        0x12, 0x34, 0x00, 0x00, 0x00, 0x06, 0x11, 0x10, 0x00, 0x6B, 0xFF, 0x00,
        0xAA, 0xBB,
    ];
    let expected = preset_multiple_registers::reply::Modbus {
        transaction: 0x1234,
        protocol: 0x0000,
        length: 0x0006,
        unit: 0x11,
        function: 0x10,
        reference_number: 0x006B,
        data: 0xFF00,
        payload: vec![0xAA, 0xBB],
    };
    assert_eq!(preset_multiple_registers::reply::Modbus::decode(&bytes), Ok(expected));
}

#[test]
fn preset_multiple_registers_reply_of_minimum_size() {
    let bytes = [0x12, 0x34, 0x00, 0x00, 0x00, 0x06, 0x11, 0x10, 0x00, 0x6B, 0xFF, 0x00];
    assert_eq!(bytes.len(), preset_multiple_registers::reply::MINIMUM_PACKET_SIZE);
    let message = preset_multiple_registers::reply::Modbus::decode(&bytes).unwrap();
    assert_eq!(message.function, 16);
    assert!(message.payload.is_empty());
}

#[test]
fn preset_multiple_registers_reply_truncated() {
    let bytes = [0x12, 0x34, 0x00, 0x00, 0x00, 0x06, 0x11, 0x10, 0x00, 0x6B, 0xFF, 0x00];
    for length in 0..bytes.len() {
        let decoded = preset_multiple_registers::reply::Modbus::decode(&bytes[..length]);
        assert_eq!(decoded, Err(DecodeError::Truncated));
    }
}

#[test]
fn preset_multiple_registers_reply_reference_number_wraps_its_value() {
    let wrapped = preset_multiple_registers::reply::ReferenceNumber::new(0xBEEF);
    assert_eq!(wrapped.0, 0xBEEF);
    assert_eq!(wrapped.to_primitive_values(), (0xBEEF,));
    assert_eq!(wrapped, preset_multiple_registers::reply::ReferenceNumber(0xBEEF));
}

#[test]
fn preset_multiple_registers_reply_data_wraps_its_value() {
    let wrapped = preset_multiple_registers::reply::Data::new(0xBEEF);
    assert_eq!(wrapped.0, 0xBEEF);
    assert_eq!(wrapped.to_primitive_values(), (0xBEEF,));
    assert_eq!(wrapped, preset_multiple_registers::reply::Data(0xBEEF));
}

#[test]
fn report_slave_id_request_decodes_every_field() {
    let bytes = [0x12, 0x34, 0x00, 0x00, 0x00, 0x06, 0x11, 0x11, 0xAA, 0xBB];
    let expected = report_slave_id::request::Modbus {
        transaction: 0x1234,
        protocol: 0x0000,
        length: 0x0006,
        unit: 0x11,
        function: 0x11,
        payload: vec![0xAA, 0xBB],
    };
    assert_eq!(report_slave_id::request::Modbus::decode(&bytes), Ok(expected));
}

#[test]
fn report_slave_id_request_of_minimum_size() {
    let bytes = [0x12, 0x34, 0x00, 0x00, 0x00, 0x06, 0x11, 0x11];
    assert_eq!(bytes.len(), report_slave_id::request::MINIMUM_PACKET_SIZE);
    let message = report_slave_id::request::Modbus::decode(&bytes).unwrap();
    assert_eq!(message.function, 17);
    assert!(message.payload.is_empty());
}

#[test]
fn report_slave_id_request_truncated() {
    let bytes = [0x12, 0x34, 0x00, 0x00, 0x00, 0x06, 0x11, 0x11];
    for length in 0..bytes.len() {
        let decoded = report_slave_id::request::Modbus::decode(&bytes[..length]);
        assert_eq!(decoded, Err(DecodeError::Truncated));
    }
}

#[test]
fn report_slave_id_reply_decodes_every_field() {
    let bytes = [0x12, 0x34, 0x00, 0x00, 0x00, 0x06, 0x11, 0x11, 0xAA, 0xBB];
    let expected = report_slave_id::reply::Modbus {
        transaction: 0x1234,
        protocol: 0x0000,
        length: 0x0006,
        unit: 0x11,
        function: 0x11,
        payload: vec![0xAA, 0xBB],
    };
    assert_eq!(report_slave_id::reply::Modbus::decode(&bytes), Ok(expected));
}

#[test]
fn report_slave_id_reply_of_minimum_size() {
    let bytes = [0x12, 0x34, 0x00, 0x00, 0x00, 0x06, 0x11, 0x11];
    assert_eq!(bytes.len(), report_slave_id::reply::MINIMUM_PACKET_SIZE);
    let message = report_slave_id::reply::Modbus::decode(&bytes).unwrap();
    assert_eq!(message.function, 17);
    assert!(message.payload.is_empty());
}

#[test]
fn report_slave_id_reply_truncated() {
    let bytes = [0x12, 0x34, 0x00, 0x00, 0x00, 0x06, 0x11, 0x11];
    for length in 0..bytes.len() {
        let decoded = report_slave_id::reply::Modbus::decode(&bytes[..length]);
        assert_eq!(decoded, Err(DecodeError::Truncated));
    }
}

#[test]
fn common_header_decodes_every_field() {
    let bytes = [0x00, 0x01, 0x00, 0x00, 0x00, 0x06, 0x01, 0x2B, 0x0E, 0x01];
    let expected = ModbusTCP {
        transaction: 1,
        protocol: 0,
        length: 6,
        unit: 1,
        function: FunctionField(0x2B),
        payload: vec![0x0E, 0x01],
    };
    assert_eq!(ModbusTCP::decode(&bytes), Ok(expected));
}

#[test]
fn common_header_truncated() {
    let bytes = [0x00, 0x01, 0x00, 0x00, 0x00, 0x06, 0x01, 0x2B];
    assert!(ModbusTCP::decode(&bytes).is_ok());
    for length in 0..bytes.len() {
        assert_eq!(ModbusTCP::decode(&bytes[..length]), Err(DecodeError::Truncated));
    }
}

#[test]
fn function_field_wraps_its_value() {
    let function = FunctionField::new(17);
    assert_eq!(function.0, 17);
    assert_eq!(function.to_primitive_values(), (17,));
}

#[test]
fn function_field_knows_the_twelve_codes() {
    let known = [1u8, 2, 3, 4, 5, 6, 8, 11, 12, 15, 16, 17];
    for code in 0..=255u8 {
        assert_eq!(FunctionField::new(code).known(), known.contains(&code));
    }
}
