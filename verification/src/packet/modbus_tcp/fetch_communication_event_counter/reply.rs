//! Fetch communication event counter, reply.
//!
//! All fields are big-endian.
//!
//! | offset | width    | field         |
//! |--------|----------|---------------|
//! | 0      | 2        | transaction   |
//! | 2      | 2        | protocol      |
//! | 4      | 2        | length        |
//! | 6      | 1        | unit          |
//! | 7      | 1        | function      |
//! | 8      | 2        | status        |
//! | 10     | 2        | event counter |
//! | 12     | the rest | payload       |

use crate::packet::modbus_tcp::DecodeError;
use crate::wire::{be16, be16_bytes, bytes_between, lemma_be16_of_bytes, u16_at, u8_at};
use vstd::prelude::*;

verus! {

/// The status word of a device.
#[derive(Copy, Clone, Debug, PartialEq, Eq, PartialOrd, Ord, Hash)]
pub struct Status(pub u16);

impl Status {
    /// Wraps `val`.
    pub fn new(val: u16) -> (status: Status)
        ensures
            status.0 == val,
    {
        Status(val)
    }

    /// The wrapped number, as a tuple of one.
    pub fn to_primitive_values(&self) -> (values: (u16,))
        ensures
            values.0 == self.0,
    {
        (self.0,)
    }
}

/// The number of events that a device has counted.
#[derive(Copy, Clone, Debug, PartialEq, Eq, PartialOrd, Ord, Hash)]
pub struct EventCounter(pub u16);

impl EventCounter {
    /// Wraps `val`.
    pub fn new(val: u16) -> (counter: EventCounter)
        ensures
            counter.0 == val,
    {
        EventCounter(val)
    }

    /// The wrapped number, as a tuple of one.
    pub fn to_primitive_values(&self) -> (values: (u16,))
        ensures
            values.0 == self.0,
    {
        (self.0,)
    }
}

/// A decoded fetch communication event counter reply.
#[derive(Clone, Debug, PartialEq, Eq)]
pub struct Modbus {
    /// Transaction identifier, chosen by the client and echoed by the server.
    pub transaction: u16,
    /// Protocol identifier.
    pub protocol: u16,
    /// Number of bytes that follow the length field, as the message declares it.
    pub length: u16,
    /// Unit identifier of the addressed device.
    pub unit: u8,
    /// Function code.
    pub function: u8,
    /// Status word.
    pub status: u16,
    /// Event counter.
    pub event_counter: u16,
    /// Bytes that follow the message.
    pub payload: Vec<u8>,
}

/// What a [`Modbus`] holds, as mathematical values.
pub struct ModbusView {
    pub transaction: u16,
    pub protocol: u16,
    pub length: u16,
    pub unit: u8,
    pub function: u8,
    pub status: u16,
    pub event_counter: u16,
    pub payload: Seq<u8>,
}

impl View for Modbus {
    type V = ModbusView;

    open spec fn view(&self) -> ModbusView {
        ModbusView {
            transaction: self.transaction,
            protocol: self.protocol,
            length: self.length,
            unit: self.unit,
            function: self.function,
            status: self.status,
            event_counter: self.event_counter,
            payload: self.payload@,
        }
    }
}

/// The number of bytes that the fixed fields take.
pub const MINIMUM_PACKET_SIZE: usize = 12;

/// The message that `bytes` hold in this layout, or why they hold none.
pub open spec fn decoded(bytes: Seq<u8>) -> Result<ModbusView, DecodeError> {
    if bytes.len() < MINIMUM_PACKET_SIZE {
        Err(DecodeError::Truncated)
    } else {
        Ok(
            ModbusView {
                transaction: be16(bytes, 0),
                protocol: be16(bytes, 2),
                length: be16(bytes, 4),
                unit: bytes[6],
                function: bytes[7],
                status: be16(bytes, 8),
                event_counter: be16(bytes, 10),
                payload: bytes.skip(12),
            },
        )
    }
}

/// The bytes of `message` in this layout.
pub open spec fn encoded(message: ModbusView) -> Seq<u8> {
    be16_bytes(message.transaction)
        + be16_bytes(message.protocol)
        + be16_bytes(message.length)
        + seq![message.unit, message.function]
        + be16_bytes(message.status)
        + be16_bytes(message.event_counter)
        + message.payload
}

/// Decoding the bytes of a message gives the message back, field for field.
pub proof fn lemma_decoded_encoded(message: ModbusView)
    ensures
        decoded(encoded(message)) == Ok::<ModbusView, DecodeError>(message),
{
    let bytes = encoded(message);
    lemma_be16_of_bytes(bytes, 0, message.transaction);
    lemma_be16_of_bytes(bytes, 2, message.protocol);
    lemma_be16_of_bytes(bytes, 4, message.length);
    lemma_be16_of_bytes(bytes, 8, message.status);
    lemma_be16_of_bytes(bytes, 10, message.event_counter);
    assert(bytes.skip(12) =~= message.payload);
}

/// Decoding loses nothing: the bytes of a decoded message are the bytes it
/// was decoded from.
pub proof fn lemma_encoded_decoded(bytes: Seq<u8>)
    ensures
        decoded(bytes) matches Ok(message) ==> encoded(message) == bytes,
{
    if let Ok(message) = decoded(bytes) {
        assert(encoded(message) =~= bytes);
    }
}

impl Modbus {
    /// Decodes `packet` in this layout. Fails where the slice ends before the
    /// fixed fields do; reads nothing beyond the slice.
    pub fn decode(packet: &[u8]) -> (message: Result<Modbus, DecodeError>)
        ensures
            match message {
                Ok(m) => decoded(packet@) == Ok::<ModbusView, DecodeError>(m@),
                Err(e) => decoded(packet@) == Err::<ModbusView, DecodeError>(e),
            },
    {
        if packet.len() < MINIMUM_PACKET_SIZE {
            return Err(DecodeError::Truncated);
        }
        let payload = bytes_between(packet, MINIMUM_PACKET_SIZE, packet.len());
        assert(payload@ =~= packet@.skip(MINIMUM_PACKET_SIZE as int));
        Ok(
            Modbus {
                transaction: u16_at(packet, 0),
                protocol: u16_at(packet, 2),
                length: u16_at(packet, 4),
                unit: u8_at(packet, 6),
                function: u8_at(packet, 7),
                status: u16_at(packet, 8),
                event_counter: u16_at(packet, 10),
                payload,
            },
        )
    }
}

} // verus!
