//! Modbus/TCP: the common header, the function codes and one module per
//! function with its request and its reply layout.
//!
//! The common header is eight bytes long: seven bytes that say whose message
//! it is and how long, and the function code. All fields are big-endian:
//!
//! | offset | width    | field       |
//! |--------|----------|-------------|
//! | 0      | 2        | transaction |
//! | 2      | 2        | protocol    |
//! | 4      | 2        | length      |
//! | 6      | 1        | unit        |
//! | 7      | 1        | function    |
//! | 8      | the rest | payload     |

use crate::wire::{be16, be16_bytes, bytes_between, lemma_be16_of_bytes, u16_at, u8_at};
use vstd::prelude::*;

pub mod diagnostics;
pub mod fetch_communication_event_counter;
pub mod fetch_communication_event_counter_log;
pub mod force_multiple_coils;
pub mod force_single_coil;
pub mod message;
pub mod preset_multiple_registers;
pub mod preset_single_register;
pub mod read_coil_status;
pub mod read_holding_register;
pub mod read_input_register;
pub mod read_input_status;
pub mod report_slave_id;
#[allow(non_snake_case)]
pub mod FunctionFieldValues;

verus! {

/// Why a byte slice is not a message of the layout it was decoded as.
#[derive(Clone, Copy, Debug, PartialEq, Eq, Structural)]
pub enum DecodeError {
    /// The slice ends before the fixed fields of the layout do.
    Truncated,
    /// The byte count that the message declares does not fit the bytes that
    /// follow it.
    ByteCount,
}

/// The function code of a message: one byte, of which twelve values name a
/// function that this crate decodes.
#[derive(PartialEq, Eq, PartialOrd, Ord, Clone, Copy, Debug, Hash, Structural)]
pub struct FunctionField(pub u8);

impl FunctionField {
    /// Wraps `field_val`.
    pub fn new(field_val: u8) -> (function: FunctionField)
        ensures
            function.0 == field_val,
    {
        FunctionField(field_val)
    }

    /// The wrapped code, as a tuple of one.
    pub fn to_primitive_values(&self) -> (values: (u8,))
        ensures
            values.0 == self.0,
    {
        (self.0,)
    }

    /// Whether the code names one of the twelve functions with a layout of
    /// their own.
    pub open spec fn is_known(self) -> bool {
        ||| self.0 == FunctionFieldValues::ReadCoilStatus
        ||| self.0 == FunctionFieldValues::ReadInputStatus
        ||| self.0 == FunctionFieldValues::ReadHoldingRegister
        ||| self.0 == FunctionFieldValues::ReadInputRegister
        ||| self.0 == FunctionFieldValues::ForceSingleCoil
        ||| self.0 == FunctionFieldValues::PresetSingleRegister
        ||| self.0 == FunctionFieldValues::Diagnostics
        ||| self.0 == FunctionFieldValues::FetchCommunicationEventCounter
        ||| self.0 == FunctionFieldValues::FetchCommunicationEventCounterLog
        ||| self.0 == FunctionFieldValues::ForceMultipleCoils
        ||| self.0 == FunctionFieldValues::PresetMultipleRegisters
        ||| self.0 == FunctionFieldValues::ReportSlaveID
    }

    /// Whether the code names one of the twelve functions with a layout of
    /// their own. Any other code is unknown, which is no error: the message
    /// is then reported by its raw code.
    pub fn known(&self) -> (known: bool)
        ensures
            known == self.is_known(),
    {
        let code: u8 = self.0;
        code == FunctionFieldValues::ReadCoilStatus || code == FunctionFieldValues::ReadInputStatus
            || code == FunctionFieldValues::ReadHoldingRegister || code
            == FunctionFieldValues::ReadInputRegister || code
            == FunctionFieldValues::ForceSingleCoil || code
            == FunctionFieldValues::PresetSingleRegister || code
            == FunctionFieldValues::Diagnostics || code
            == FunctionFieldValues::FetchCommunicationEventCounter || code
            == FunctionFieldValues::FetchCommunicationEventCounterLog || code
            == FunctionFieldValues::ForceMultipleCoils || code
            == FunctionFieldValues::PresetMultipleRegisters || code
            == FunctionFieldValues::ReportSlaveID
    }
}

/// The common header of every Modbus/TCP message, with all that follows it
/// as payload.
#[derive(Clone, Debug, PartialEq, Eq)]
pub struct ModbusTCP {
    /// Transaction identifier, chosen by the client and echoed by the server.
    pub transaction: u16,
    /// Protocol identifier.
    pub protocol: u16,
    /// Number of bytes that follow the length field, as the message declares it.
    pub length: u16,
    /// Unit identifier of the addressed device.
    pub unit: u8,
    /// Function code.
    pub function: FunctionField,
    /// The bytes behind the header.
    pub payload: Vec<u8>,
}

/// What a [`ModbusTCP`] holds, as mathematical values.
pub struct ModbusTCPView {
    pub transaction: u16,
    pub protocol: u16,
    pub length: u16,
    pub unit: u8,
    pub function: FunctionField,
    pub payload: Seq<u8>,
}

impl View for ModbusTCP {
    type V = ModbusTCPView;

    open spec fn view(&self) -> ModbusTCPView {
        ModbusTCPView {
            transaction: self.transaction,
            protocol: self.protocol,
            length: self.length,
            unit: self.unit,
            function: self.function,
            payload: self.payload@,
        }
    }
}

/// The number of bytes that the common header takes.
pub const MINIMUM_PACKET_SIZE: usize = 8;

/// The header and payload that `bytes` hold, or why they hold none.
pub open spec fn decoded(bytes: Seq<u8>) -> Result<ModbusTCPView, DecodeError> {
    if bytes.len() < MINIMUM_PACKET_SIZE {
        Err(DecodeError::Truncated)
    } else {
        Ok(
            ModbusTCPView {
                transaction: be16(bytes, 0),
                protocol: be16(bytes, 2),
                length: be16(bytes, 4),
                unit: bytes[6],
                function: FunctionField(bytes[7]),
                payload: bytes.skip(8),
            },
        )
    }
}

/// The bytes of a header and its payload.
pub open spec fn encoded(message: ModbusTCPView) -> Seq<u8> {
    be16_bytes(message.transaction)
        + be16_bytes(message.protocol)
        + be16_bytes(message.length)
        + seq![message.unit, message.function.0]
        + message.payload
}

/// Decoding the bytes of a header and payload gives both back, field for
/// field.
pub proof fn lemma_decoded_encoded(message: ModbusTCPView)
    ensures
        decoded(encoded(message)) == Ok::<ModbusTCPView, DecodeError>(message),
{
    let bytes = encoded(message);
    lemma_be16_of_bytes(bytes, 0, message.transaction);
    lemma_be16_of_bytes(bytes, 2, message.protocol);
    lemma_be16_of_bytes(bytes, 4, message.length);
    assert(bytes.skip(8) =~= message.payload);
}

/// Decoding loses nothing: the bytes of a decoded header and payload are the
/// bytes they were decoded from.
pub proof fn lemma_encoded_decoded(bytes: Seq<u8>)
    ensures
        decoded(bytes) matches Ok(message) ==> encoded(message) == bytes,
{
    if let Ok(message) = decoded(bytes) {
        assert(encoded(message) =~= bytes);
    }
}

impl ModbusTCP {
    /// Decodes the common header of `packet`. Fails where the slice is
    /// shorter than the header; reads nothing beyond the slice.
    pub fn decode(packet: &[u8]) -> (message: Result<ModbusTCP, DecodeError>)
        ensures
            match message {
                Ok(m) => decoded(packet@) == Ok::<ModbusTCPView, DecodeError>(m@),
                Err(e) => decoded(packet@) == Err::<ModbusTCPView, DecodeError>(e),
            },
    {
        if packet.len() < MINIMUM_PACKET_SIZE {
            return Err(DecodeError::Truncated);
        }
        let payload = bytes_between(packet, MINIMUM_PACKET_SIZE, packet.len());
        assert(payload@ =~= packet@.skip(MINIMUM_PACKET_SIZE as int));
        Ok(
            ModbusTCP {
                transaction: u16_at(packet, 0),
                protocol: u16_at(packet, 2),
                length: u16_at(packet, 4),
                unit: u8_at(packet, 6),
                function: FunctionField(u8_at(packet, 7)),
                payload,
            },
        )
    }
}

} // verus!
