//! Read coil status, reply.
//!
//! All fields are big-endian.
//!
//! | offset     | width      | field       |
//! |------------|------------|-------------|
//! | 0          | 2          | transaction |
//! | 2          | 2          | protocol    |
//! | 4          | 2          | length      |
//! | 6          | 1          | unit        |
//! | 7          | 1          | function    |
//! | 8          | 1          | byte count  |
//! | 9          | byte count | data        |
//! | after data | the rest   | payload     |

use crate::packet::modbus_tcp::DecodeError;
use crate::wire::{be16, be16_bytes, bytes_between, lemma_be16_of_bytes, u16_at, u8_at};
use vstd::prelude::*;

verus! {

/// The number of bytes that a message declares for what follows the count.
#[derive(Copy, Clone, Debug, PartialEq, Eq, PartialOrd, Ord, Hash)]
pub struct ByteCount(pub u8);

impl ByteCount {
    /// Wraps `val`.
    pub fn new(val: u8) -> (count: ByteCount)
        ensures
            count.0 == val,
    {
        ByteCount(val)
    }

    /// The wrapped number, as a tuple of one.
    pub fn to_primitive_values(&self) -> (values: (u8,))
        ensures
            values.0 == self.0,
    {
        (self.0,)
    }
}

/// A decoded read coil status reply.
#[derive(Clone, Debug, PartialEq, Eq)]
pub struct Modbus {
    /// Transaction identifier, chosen by the client and echoed by the server.
    pub transaction: u16,
    /// Protocol identifier.
    pub protocol: u16,
    /// Number of bytes that follow the length field, as the message declares it.
    pub length: u16,
    /// Unit identifier of the addressed device.
    pub unit: u8,
    /// Function code.
    pub function: u8,
    /// Number of data bytes that follow.
    pub byte_count: u8,
    /// The states of the coils, eight to a byte, as raw bytes.
    pub data: Vec<u8>,
    /// Bytes that follow the message.
    pub payload: Vec<u8>,
}

/// What a [`Modbus`] holds, as mathematical values.
pub struct ModbusView {
    pub transaction: u16,
    pub protocol: u16,
    pub length: u16,
    pub unit: u8,
    pub function: u8,
    pub byte_count: u8,
    pub data: Seq<u8>,
    pub payload: Seq<u8>,
}

impl View for Modbus {
    type V = ModbusView;

    open spec fn view(&self) -> ModbusView {
        ModbusView {
            transaction: self.transaction,
            protocol: self.protocol,
            length: self.length,
            unit: self.unit,
            function: self.function,
            byte_count: self.byte_count,
            data: self.data@,
            payload: self.payload@,
        }
    }
}

impl ModbusView {
    /// The byte count is the length of the data.
    pub open spec fn wf(self) -> bool {
        self.data.len() == self.byte_count
    }
}

/// The number of bytes that the fixed fields take.
pub const MINIMUM_PACKET_SIZE: usize = 9;

/// The number of data bytes that `bytes` declare, where they hold the fixed
/// fields.
pub open spec fn data_length(bytes: Seq<u8>) -> int {
    bytes[8] as int
}

/// The message that `bytes` hold in this layout, or why they hold none.
pub open spec fn decoded(bytes: Seq<u8>) -> Result<ModbusView, DecodeError> {
    if bytes.len() < MINIMUM_PACKET_SIZE {
        Err(DecodeError::Truncated)
    } else if data_length(bytes) > bytes.len() - MINIMUM_PACKET_SIZE {
        Err(DecodeError::ByteCount)
    } else {
        Ok(
            ModbusView {
                transaction: be16(bytes, 0),
                protocol: be16(bytes, 2),
                length: be16(bytes, 4),
                unit: bytes[6],
                function: bytes[7],
                byte_count: bytes[8],
                data: bytes.subrange(9, 9 + data_length(bytes)),
                payload: bytes.skip(9 + data_length(bytes)),
            },
        )
    }
}

/// The bytes of `message` in this layout.
pub open spec fn encoded(message: ModbusView) -> Seq<u8> {
    be16_bytes(message.transaction)
        + be16_bytes(message.protocol)
        + be16_bytes(message.length)
        + seq![message.unit, message.function, message.byte_count]
        + message.data
        + message.payload
}

/// Decoding the bytes of a message gives the message back, field for field.
pub proof fn lemma_decoded_encoded(message: ModbusView)
    requires
        message.wf(),
    ensures
        decoded(encoded(message)) == Ok::<ModbusView, DecodeError>(message),
{
    let bytes = encoded(message);
    lemma_be16_of_bytes(bytes, 0, message.transaction);
    lemma_be16_of_bytes(bytes, 2, message.protocol);
    lemma_be16_of_bytes(bytes, 4, message.length);
    assert(bytes.subrange(9, 9 + data_length(bytes)) =~= message.data);
    assert(bytes.skip(9 + data_length(bytes)) =~= message.payload);
}

/// Decoding loses nothing: the bytes of a decoded message are the bytes it
/// was decoded from.
pub proof fn lemma_encoded_decoded(bytes: Seq<u8>)
    ensures
        decoded(bytes) matches Ok(message) ==> encoded(message) == bytes,
{
    if let Ok(message) = decoded(bytes) {
        assert(encoded(message) =~= bytes);
    }
}

/// Whatever is decoded is well-formed: its byte count is that of its data.
pub proof fn lemma_decoded_well_formed(bytes: Seq<u8>)
    ensures
        decoded(bytes) matches Ok(message) ==> message.wf(),
{
}

/// A byte count that claims more bytes than follow the fixed fields makes the
/// message malformed, whatever the other bytes are.
pub proof fn lemma_excess_count_rejected(bytes: Seq<u8>)
    requires
        bytes.len() >= MINIMUM_PACKET_SIZE,
        data_length(bytes) > bytes.len() - MINIMUM_PACKET_SIZE,
    ensures
        decoded(bytes) == Err::<ModbusView, DecodeError>(DecodeError::ByteCount),
{
}

impl Modbus {
    /// Decodes `packet` in this layout. Fails where the slice ends before the
    /// fixed fields do, or where the byte count does not fit the bytes behind
    /// them; reads nothing beyond the slice.
    pub fn decode(packet: &[u8]) -> (message: Result<Modbus, DecodeError>)
        ensures
            match message {
                Ok(m) => decoded(packet@) == Ok::<ModbusView, DecodeError>(m@),
                Err(e) => decoded(packet@) == Err::<ModbusView, DecodeError>(e),
            },
    {
        if packet.len() < MINIMUM_PACKET_SIZE {
            return Err(DecodeError::Truncated);
        }
        let byte_count = u8_at(packet, 8);
        let declared: usize = byte_count as usize;
        if declared > packet.len() - MINIMUM_PACKET_SIZE {
            return Err(DecodeError::ByteCount);
        }
        let data_end: usize = MINIMUM_PACKET_SIZE + declared;
        let data = bytes_between(packet, MINIMUM_PACKET_SIZE, data_end);
        let payload = bytes_between(packet, data_end, packet.len());
        assert(payload@ =~= packet@.skip(data_end as int));
        Ok(
            Modbus {
                transaction: u16_at(packet, 0),
                protocol: u16_at(packet, 2),
                length: u16_at(packet, 4),
                unit: u8_at(packet, 6),
                function: u8_at(packet, 7),
                byte_count,
                data,
                payload,
            },
        )
    }
}

} // verus!
