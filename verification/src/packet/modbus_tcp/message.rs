//! The message that a TCP payload holds, by direction and function code.
//!
//! The direction is not on the wire: it follows from the side on which the
//! Modbus port stands. A request and a reply of one function differ in
//! layout, so every message is decoded from its first byte in the layout
//! that direction and function code select together.

use crate::packet::modbus_tcp::{
    decoded, diagnostics, fetch_communication_event_counter,
    fetch_communication_event_counter_log, force_multiple_coils, force_single_coil,
    preset_multiple_registers, preset_single_register, read_coil_status,
    read_holding_register, read_input_register, read_input_status, report_slave_id,
    DecodeError, FunctionField, FunctionFieldValues, ModbusTCP, ModbusTCPView,
    MINIMUM_PACKET_SIZE,
};
use crate::wire::u8_at;
use vstd::prelude::*;

verus! {

/// The TCP port of a Modbus server.
pub const MODBUS_PORT: u16 = 502;

/// Which way a TCP segment travels between a Modbus client and a server.
#[derive(Clone, Copy, Debug, PartialEq, Eq, Structural)]
pub enum Direction {
    /// Towards the server: the destination port is the Modbus port.
    Request,
    /// From the server: the source port is the Modbus port.
    Reply,
    /// Neither port is the Modbus port.
    NotModbus,
}

/// The direction of a segment with these ports. The destination is looked at
/// first, so a segment from the Modbus port to the Modbus port is a request.
pub open spec fn direction(source_port: u16, destination_port: u16) -> Direction {
    if destination_port == MODBUS_PORT {
        Direction::Request
    } else if source_port == MODBUS_PORT {
        Direction::Reply
    } else {
        Direction::NotModbus
    }
}

/// The direction of a segment with these ports. The destination is looked at
/// first, so a segment from the Modbus port to the Modbus port is a request.
pub fn direction_of(source_port: u16, destination_port: u16) -> (way: Direction)
    ensures
        way == direction(source_port, destination_port),
{
    if destination_port == MODBUS_PORT {
        Direction::Request
    } else if source_port == MODBUS_PORT {
        Direction::Reply
    } else {
        Direction::NotModbus
    }
}

/// A request, decoded in the layout that its function code selects.
#[derive(Clone, Debug, PartialEq, Eq)]
pub enum Request {
    /// Read coil status (function 1).
    ReadCoilStatus(read_coil_status::request::Modbus),
    /// Read input status (function 2).
    ReadInputStatus(read_input_status::request::Modbus),
    /// Read holding register (function 3).
    ReadHoldingRegister(read_holding_register::request::Modbus),
    /// Read input register (function 4).
    ReadInputRegister(read_input_register::request::Modbus),
    /// Force single coil (function 5).
    ForceSingleCoil(force_single_coil::request::Modbus),
    /// Preset single register (function 6).
    PresetSingleRegister(preset_single_register::request::Modbus),
    /// Diagnostics (function 8).
    Diagnostics(diagnostics::request::Modbus),
    /// Fetch communication event counter (function 11).
    FetchCommunicationEventCounter(fetch_communication_event_counter::request::Modbus),
    /// Fetch communication event log (function 12).
    FetchCommunicationEventCounterLog(fetch_communication_event_counter_log::request::Modbus),
    /// Force multiple coils (function 15).
    ForceMultipleCoils(force_multiple_coils::request::Modbus),
    /// Preset multiple registers (function 16).
    PresetMultipleRegisters(preset_multiple_registers::request::Modbus),
    /// Report slave id (function 17).
    ReportSlaveID(report_slave_id::request::Modbus),
}

/// What a [`Request`] holds, as mathematical values.
pub enum RequestView {
    ReadCoilStatus(read_coil_status::request::ModbusView),
    ReadInputStatus(read_input_status::request::ModbusView),
    ReadHoldingRegister(read_holding_register::request::ModbusView),
    ReadInputRegister(read_input_register::request::ModbusView),
    ForceSingleCoil(force_single_coil::request::ModbusView),
    PresetSingleRegister(preset_single_register::request::ModbusView),
    Diagnostics(diagnostics::request::ModbusView),
    FetchCommunicationEventCounter(fetch_communication_event_counter::request::ModbusView),
    FetchCommunicationEventCounterLog(fetch_communication_event_counter_log::request::ModbusView),
    ForceMultipleCoils(force_multiple_coils::request::ModbusView),
    PresetMultipleRegisters(preset_multiple_registers::request::ModbusView),
    ReportSlaveID(report_slave_id::request::ModbusView),
}

impl View for Request {
    type V = RequestView;

    open spec fn view(&self) -> RequestView {
        match self {
            Request::ReadCoilStatus(m) => RequestView::ReadCoilStatus(m@),
            Request::ReadInputStatus(m) => RequestView::ReadInputStatus(m@),
            Request::ReadHoldingRegister(m) => RequestView::ReadHoldingRegister(m@),
            Request::ReadInputRegister(m) => RequestView::ReadInputRegister(m@),
            Request::ForceSingleCoil(m) => RequestView::ForceSingleCoil(m@),
            Request::PresetSingleRegister(m) => RequestView::PresetSingleRegister(m@),
            Request::Diagnostics(m) => RequestView::Diagnostics(m@),
            Request::FetchCommunicationEventCounter(m) => {
                RequestView::FetchCommunicationEventCounter(m@)
            },
            Request::FetchCommunicationEventCounterLog(m) => {
                RequestView::FetchCommunicationEventCounterLog(m@)
            },
            Request::ForceMultipleCoils(m) => RequestView::ForceMultipleCoils(m@),
            Request::PresetMultipleRegisters(m) => RequestView::PresetMultipleRegisters(m@),
            Request::ReportSlaveID(m) => RequestView::ReportSlaveID(m@),
        }
    }
}

impl RequestView {
    /// The function code that the message carries.
    pub open spec fn function(self) -> u8 {
        match self {
            RequestView::ReadCoilStatus(m) => m.function,
            RequestView::ReadInputStatus(m) => m.function,
            RequestView::ReadHoldingRegister(m) => m.function,
            RequestView::ReadInputRegister(m) => m.function,
            RequestView::ForceSingleCoil(m) => m.function,
            RequestView::PresetSingleRegister(m) => m.function,
            RequestView::Diagnostics(m) => m.function,
            RequestView::FetchCommunicationEventCounter(m) => m.function,
            RequestView::FetchCommunicationEventCounterLog(m) => m.function,
            RequestView::ForceMultipleCoils(m) => m.function,
            RequestView::PresetMultipleRegisters(m) => m.function,
            RequestView::ReportSlaveID(m) => m.function,
        }
    }

    /// The function code that selects the layout of the message.
    pub open spec fn code(self) -> u8 {
        match self {
            RequestView::ReadCoilStatus(_) => FunctionFieldValues::ReadCoilStatus,
            RequestView::ReadInputStatus(_) => FunctionFieldValues::ReadInputStatus,
            RequestView::ReadHoldingRegister(_) => FunctionFieldValues::ReadHoldingRegister,
            RequestView::ReadInputRegister(_) => FunctionFieldValues::ReadInputRegister,
            RequestView::ForceSingleCoil(_) => FunctionFieldValues::ForceSingleCoil,
            RequestView::PresetSingleRegister(_) => FunctionFieldValues::PresetSingleRegister,
            RequestView::Diagnostics(_) => FunctionFieldValues::Diagnostics,
            RequestView::FetchCommunicationEventCounter(_) => {
                FunctionFieldValues::FetchCommunicationEventCounter
            },
            RequestView::FetchCommunicationEventCounterLog(_) => {
                FunctionFieldValues::FetchCommunicationEventCounterLog
            },
            RequestView::ForceMultipleCoils(_) => FunctionFieldValues::ForceMultipleCoils,
            RequestView::PresetMultipleRegisters(_) => FunctionFieldValues::PresetMultipleRegisters,
            RequestView::ReportSlaveID(_) => FunctionFieldValues::ReportSlaveID,
        }
    }

    /// The message carries the function code of its layout, and its byte
    /// count, where it has one, is that of its data.
    pub open spec fn wf(self) -> bool {
        &&& self.function() == self.code()
        &&& match self {
            RequestView::ForceMultipleCoils(m) => m.wf(),
            RequestView::PresetMultipleRegisters(m) => m.wf(),
            _ => true,
        }
    }

    /// The bytes of the message.
    pub open spec fn encoded(self) -> Seq<u8> {
        match self {
            RequestView::ReadCoilStatus(m) => read_coil_status::request::encoded(m),
            RequestView::ReadInputStatus(m) => read_input_status::request::encoded(m),
            RequestView::ReadHoldingRegister(m) => read_holding_register::request::encoded(m),
            RequestView::ReadInputRegister(m) => read_input_register::request::encoded(m),
            RequestView::ForceSingleCoil(m) => force_single_coil::request::encoded(m),
            RequestView::PresetSingleRegister(m) => preset_single_register::request::encoded(m),
            RequestView::Diagnostics(m) => diagnostics::request::encoded(m),
            RequestView::FetchCommunicationEventCounter(m) => {
                fetch_communication_event_counter::request::encoded(m)
            },
            RequestView::FetchCommunicationEventCounterLog(m) => {
                fetch_communication_event_counter_log::request::encoded(m)
            },
            RequestView::ForceMultipleCoils(m) => force_multiple_coils::request::encoded(m),
            RequestView::PresetMultipleRegisters(m) => {
                preset_multiple_registers::request::encoded(m)
            },
            RequestView::ReportSlaveID(m) => report_slave_id::request::encoded(m),
        }
    }
}

/// The request that `bytes` hold, in the layout that the function code at
/// offset 7 selects. The code is one of the twelve known ones.
pub open spec fn request_decoded(bytes: Seq<u8>) -> Result<RequestView, DecodeError>
    recommends
        bytes.len() >= MINIMUM_PACKET_SIZE,
        FunctionField(bytes[7]).is_known(),
{
    let function = bytes[7];
    if function == FunctionFieldValues::ReadCoilStatus {
        match read_coil_status::request::decoded(bytes) {
            Ok(m) => Ok(RequestView::ReadCoilStatus(m)),
            Err(e) => Err(e),
        }
    } else if function == FunctionFieldValues::ReadInputStatus {
        match read_input_status::request::decoded(bytes) {
            Ok(m) => Ok(RequestView::ReadInputStatus(m)),
            Err(e) => Err(e),
        }
    } else if function == FunctionFieldValues::ReadHoldingRegister {
        match read_holding_register::request::decoded(bytes) {
            Ok(m) => Ok(RequestView::ReadHoldingRegister(m)),
            Err(e) => Err(e),
        }
    } else if function == FunctionFieldValues::ReadInputRegister {
        match read_input_register::request::decoded(bytes) {
            Ok(m) => Ok(RequestView::ReadInputRegister(m)),
            Err(e) => Err(e),
        }
    } else if function == FunctionFieldValues::ForceSingleCoil {
        match force_single_coil::request::decoded(bytes) {
            Ok(m) => Ok(RequestView::ForceSingleCoil(m)),
            Err(e) => Err(e),
        }
    } else if function == FunctionFieldValues::PresetSingleRegister {
        match preset_single_register::request::decoded(bytes) {
            Ok(m) => Ok(RequestView::PresetSingleRegister(m)),
            Err(e) => Err(e),
        }
    } else if function == FunctionFieldValues::Diagnostics {
        match diagnostics::request::decoded(bytes) {
            Ok(m) => Ok(RequestView::Diagnostics(m)),
            Err(e) => Err(e),
        }
    } else if function == FunctionFieldValues::FetchCommunicationEventCounter {
        match fetch_communication_event_counter::request::decoded(bytes) {
            Ok(m) => Ok(RequestView::FetchCommunicationEventCounter(m)),
            Err(e) => Err(e),
        }
    } else if function == FunctionFieldValues::FetchCommunicationEventCounterLog {
        match fetch_communication_event_counter_log::request::decoded(bytes) {
            Ok(m) => Ok(RequestView::FetchCommunicationEventCounterLog(m)),
            Err(e) => Err(e),
        }
    } else if function == FunctionFieldValues::ForceMultipleCoils {
        match force_multiple_coils::request::decoded(bytes) {
            Ok(m) => Ok(RequestView::ForceMultipleCoils(m)),
            Err(e) => Err(e),
        }
    } else if function == FunctionFieldValues::PresetMultipleRegisters {
        match preset_multiple_registers::request::decoded(bytes) {
            Ok(m) => Ok(RequestView::PresetMultipleRegisters(m)),
            Err(e) => Err(e),
        }
    } else {
        match report_slave_id::request::decoded(bytes) {
            Ok(m) => Ok(RequestView::ReportSlaveID(m)),
            Err(e) => Err(e),
        }
    }
}

/// Decodes `packet` as the request that its function code selects.
fn decode_request(packet: &[u8]) -> (message: Result<Request, DecodeError>)
    requires
        packet@.len() >= MINIMUM_PACKET_SIZE,
        FunctionField(packet@[7]).is_known(),
    ensures
        match message {
            Ok(m) => request_decoded(packet@) == Ok::<RequestView, DecodeError>(m@),
            Err(e) => request_decoded(packet@) == Err::<RequestView, DecodeError>(e),
        },
{
    let function = u8_at(packet, 7);
    if function == FunctionFieldValues::ReadCoilStatus {
        return match read_coil_status::request::Modbus::decode(packet) {
            Ok(m) => Ok(Request::ReadCoilStatus(m)),
            Err(e) => Err(e),
        };
    }
    if function == FunctionFieldValues::ReadInputStatus {
        return match read_input_status::request::Modbus::decode(packet) {
            Ok(m) => Ok(Request::ReadInputStatus(m)),
            Err(e) => Err(e),
        };
    }
    if function == FunctionFieldValues::ReadHoldingRegister {
        return match read_holding_register::request::Modbus::decode(packet) {
            Ok(m) => Ok(Request::ReadHoldingRegister(m)),
            Err(e) => Err(e),
        };
    }
    if function == FunctionFieldValues::ReadInputRegister {
        return match read_input_register::request::Modbus::decode(packet) {
            Ok(m) => Ok(Request::ReadInputRegister(m)),
            Err(e) => Err(e),
        };
    }
    if function == FunctionFieldValues::ForceSingleCoil {
        return match force_single_coil::request::Modbus::decode(packet) {
            Ok(m) => Ok(Request::ForceSingleCoil(m)),
            Err(e) => Err(e),
        };
    }
    if function == FunctionFieldValues::PresetSingleRegister {
        return match preset_single_register::request::Modbus::decode(packet) {
            Ok(m) => Ok(Request::PresetSingleRegister(m)),
            Err(e) => Err(e),
        };
    }
    if function == FunctionFieldValues::Diagnostics {
        return match diagnostics::request::Modbus::decode(packet) {
            Ok(m) => Ok(Request::Diagnostics(m)),
            Err(e) => Err(e),
        };
    }
    if function == FunctionFieldValues::FetchCommunicationEventCounter {
        return match fetch_communication_event_counter::request::Modbus::decode(packet) {
            Ok(m) => Ok(Request::FetchCommunicationEventCounter(m)),
            Err(e) => Err(e),
        };
    }
    if function == FunctionFieldValues::FetchCommunicationEventCounterLog {
        return match fetch_communication_event_counter_log::request::Modbus::decode(packet) {
            Ok(m) => Ok(Request::FetchCommunicationEventCounterLog(m)),
            Err(e) => Err(e),
        };
    }
    if function == FunctionFieldValues::ForceMultipleCoils {
        return match force_multiple_coils::request::Modbus::decode(packet) {
            Ok(m) => Ok(Request::ForceMultipleCoils(m)),
            Err(e) => Err(e),
        };
    }
    if function == FunctionFieldValues::PresetMultipleRegisters {
        return match preset_multiple_registers::request::Modbus::decode(packet) {
            Ok(m) => Ok(Request::PresetMultipleRegisters(m)),
            Err(e) => Err(e),
        };
    }
    match report_slave_id::request::Modbus::decode(packet) {
        Ok(m) => Ok(Request::ReportSlaveID(m)),
        Err(e) => Err(e),
    }
}

/// Decoding a request loses nothing: the bytes of what was decoded are the
/// bytes it was decoded from.
pub proof fn lemma_request_encoded_decoded(bytes: Seq<u8>)
    ensures
        request_decoded(bytes) matches Ok(message) ==> message.encoded() == bytes,
{
    read_coil_status::request::lemma_encoded_decoded(bytes);
    read_input_status::request::lemma_encoded_decoded(bytes);
    read_holding_register::request::lemma_encoded_decoded(bytes);
    read_input_register::request::lemma_encoded_decoded(bytes);
    force_single_coil::request::lemma_encoded_decoded(bytes);
    preset_single_register::request::lemma_encoded_decoded(bytes);
    diagnostics::request::lemma_encoded_decoded(bytes);
    fetch_communication_event_counter::request::lemma_encoded_decoded(bytes);
    fetch_communication_event_counter_log::request::lemma_encoded_decoded(bytes);
    force_multiple_coils::request::lemma_encoded_decoded(bytes);
    preset_multiple_registers::request::lemma_encoded_decoded(bytes);
    report_slave_id::request::lemma_encoded_decoded(bytes);
}

/// Decoding the bytes of a well-formed request gives the request back.
pub proof fn lemma_request_decoded_encoded(message: RequestView)
    requires
        message.wf(),
    ensures
        message.encoded().len() >= MINIMUM_PACKET_SIZE,
        message.encoded()[7] == message.code(),
        request_decoded(message.encoded()) == Ok::<RequestView, DecodeError>(message),
{
    match message {
        RequestView::ReadCoilStatus(m) => {
            read_coil_status::request::lemma_decoded_encoded(m);
        },
        RequestView::ReadInputStatus(m) => {
            read_input_status::request::lemma_decoded_encoded(m);
        },
        RequestView::ReadHoldingRegister(m) => {
            read_holding_register::request::lemma_decoded_encoded(m);
        },
        RequestView::ReadInputRegister(m) => {
            read_input_register::request::lemma_decoded_encoded(m);
        },
        RequestView::ForceSingleCoil(m) => {
            force_single_coil::request::lemma_decoded_encoded(m);
        },
        RequestView::PresetSingleRegister(m) => {
            preset_single_register::request::lemma_decoded_encoded(m);
        },
        RequestView::Diagnostics(m) => {
            diagnostics::request::lemma_decoded_encoded(m);
        },
        RequestView::FetchCommunicationEventCounter(m) => {
            fetch_communication_event_counter::request::lemma_decoded_encoded(m);
        },
        RequestView::FetchCommunicationEventCounterLog(m) => {
            fetch_communication_event_counter_log::request::lemma_decoded_encoded(m);
        },
        RequestView::ForceMultipleCoils(m) => {
            force_multiple_coils::request::lemma_decoded_encoded(m);
        },
        RequestView::PresetMultipleRegisters(m) => {
            preset_multiple_registers::request::lemma_decoded_encoded(m);
        },
        RequestView::ReportSlaveID(m) => {
            report_slave_id::request::lemma_decoded_encoded(m);
        },
    }
}

/// A reply, decoded in the layout that its function code selects.
#[derive(Clone, Debug, PartialEq, Eq)]
pub enum Reply {
    /// Read coil status (function 1).
    ReadCoilStatus(read_coil_status::reply::Modbus),
    /// Read input status (function 2).
    ReadInputStatus(read_input_status::reply::Modbus),
    /// Read holding register (function 3).
    ReadHoldingRegister(read_holding_register::reply::Modbus),
    /// Read input register (function 4).
    ReadInputRegister(read_input_register::reply::Modbus),
    /// Force single coil (function 5).
    ForceSingleCoil(force_single_coil::reply::Modbus),
    /// Preset single register (function 6).
    PresetSingleRegister(preset_single_register::reply::Modbus),
    /// Diagnostics (function 8).
    Diagnostics(diagnostics::reply::Modbus),
    /// Fetch communication event counter (function 11).
    FetchCommunicationEventCounter(fetch_communication_event_counter::reply::Modbus),
    /// Fetch communication event log (function 12).
    FetchCommunicationEventCounterLog(fetch_communication_event_counter_log::reply::Modbus),
    /// Force multiple coils (function 15).
    ForceMultipleCoils(force_multiple_coils::reply::Modbus),
    /// Preset multiple registers (function 16).
    PresetMultipleRegisters(preset_multiple_registers::reply::Modbus),
    /// Report slave id (function 17).
    ReportSlaveID(report_slave_id::reply::Modbus),
}

/// What a [`Reply`] holds, as mathematical values.
pub enum ReplyView {
    ReadCoilStatus(read_coil_status::reply::ModbusView),
    ReadInputStatus(read_input_status::reply::ModbusView),
    ReadHoldingRegister(read_holding_register::reply::ModbusView),
    ReadInputRegister(read_input_register::reply::ModbusView),
    ForceSingleCoil(force_single_coil::reply::ModbusView),
    PresetSingleRegister(preset_single_register::reply::ModbusView),
    Diagnostics(diagnostics::reply::ModbusView),
    FetchCommunicationEventCounter(fetch_communication_event_counter::reply::ModbusView),
    FetchCommunicationEventCounterLog(fetch_communication_event_counter_log::reply::ModbusView),
    ForceMultipleCoils(force_multiple_coils::reply::ModbusView),
    PresetMultipleRegisters(preset_multiple_registers::reply::ModbusView),
    ReportSlaveID(report_slave_id::reply::ModbusView),
}

impl View for Reply {
    type V = ReplyView;

    open spec fn view(&self) -> ReplyView {
        match self {
            Reply::ReadCoilStatus(m) => ReplyView::ReadCoilStatus(m@),
            Reply::ReadInputStatus(m) => ReplyView::ReadInputStatus(m@),
            Reply::ReadHoldingRegister(m) => ReplyView::ReadHoldingRegister(m@),
            Reply::ReadInputRegister(m) => ReplyView::ReadInputRegister(m@),
            Reply::ForceSingleCoil(m) => ReplyView::ForceSingleCoil(m@),
            Reply::PresetSingleRegister(m) => ReplyView::PresetSingleRegister(m@),
            Reply::Diagnostics(m) => ReplyView::Diagnostics(m@),
            Reply::FetchCommunicationEventCounter(m) => {
                ReplyView::FetchCommunicationEventCounter(m@)
            },
            Reply::FetchCommunicationEventCounterLog(m) => {
                ReplyView::FetchCommunicationEventCounterLog(m@)
            },
            Reply::ForceMultipleCoils(m) => ReplyView::ForceMultipleCoils(m@),
            Reply::PresetMultipleRegisters(m) => ReplyView::PresetMultipleRegisters(m@),
            Reply::ReportSlaveID(m) => ReplyView::ReportSlaveID(m@),
        }
    }
}

impl ReplyView {
    /// The function code that the message carries.
    pub open spec fn function(self) -> u8 {
        match self {
            ReplyView::ReadCoilStatus(m) => m.function,
            ReplyView::ReadInputStatus(m) => m.function,
            ReplyView::ReadHoldingRegister(m) => m.function,
            ReplyView::ReadInputRegister(m) => m.function,
            ReplyView::ForceSingleCoil(m) => m.function,
            ReplyView::PresetSingleRegister(m) => m.function,
            ReplyView::Diagnostics(m) => m.function,
            ReplyView::FetchCommunicationEventCounter(m) => m.function,
            ReplyView::FetchCommunicationEventCounterLog(m) => m.function,
            ReplyView::ForceMultipleCoils(m) => m.function,
            ReplyView::PresetMultipleRegisters(m) => m.function,
            ReplyView::ReportSlaveID(m) => m.function,
        }
    }

    /// The function code that selects the layout of the message.
    pub open spec fn code(self) -> u8 {
        match self {
            ReplyView::ReadCoilStatus(_) => FunctionFieldValues::ReadCoilStatus,
            ReplyView::ReadInputStatus(_) => FunctionFieldValues::ReadInputStatus,
            ReplyView::ReadHoldingRegister(_) => FunctionFieldValues::ReadHoldingRegister,
            ReplyView::ReadInputRegister(_) => FunctionFieldValues::ReadInputRegister,
            ReplyView::ForceSingleCoil(_) => FunctionFieldValues::ForceSingleCoil,
            ReplyView::PresetSingleRegister(_) => FunctionFieldValues::PresetSingleRegister,
            ReplyView::Diagnostics(_) => FunctionFieldValues::Diagnostics,
            ReplyView::FetchCommunicationEventCounter(_) => {
                FunctionFieldValues::FetchCommunicationEventCounter
            },
            ReplyView::FetchCommunicationEventCounterLog(_) => {
                FunctionFieldValues::FetchCommunicationEventCounterLog
            },
            ReplyView::ForceMultipleCoils(_) => FunctionFieldValues::ForceMultipleCoils,
            ReplyView::PresetMultipleRegisters(_) => FunctionFieldValues::PresetMultipleRegisters,
            ReplyView::ReportSlaveID(_) => FunctionFieldValues::ReportSlaveID,
        }
    }

    /// The message carries the function code of its layout, and its byte
    /// count, where it has one, is that of its data.
    pub open spec fn wf(self) -> bool {
        &&& self.function() == self.code()
        &&& match self {
            ReplyView::ReadCoilStatus(m) => m.wf(),
            ReplyView::ReadInputStatus(m) => m.wf(),
            ReplyView::ReadHoldingRegister(m) => m.wf(),
            ReplyView::ReadInputRegister(m) => m.wf(),
            ReplyView::FetchCommunicationEventCounterLog(m) => m.wf(),
            _ => true,
        }
    }

    /// The bytes of the message.
    pub open spec fn encoded(self) -> Seq<u8> {
        match self {
            ReplyView::ReadCoilStatus(m) => read_coil_status::reply::encoded(m),
            ReplyView::ReadInputStatus(m) => read_input_status::reply::encoded(m),
            ReplyView::ReadHoldingRegister(m) => read_holding_register::reply::encoded(m),
            ReplyView::ReadInputRegister(m) => read_input_register::reply::encoded(m),
            ReplyView::ForceSingleCoil(m) => force_single_coil::reply::encoded(m),
            ReplyView::PresetSingleRegister(m) => preset_single_register::reply::encoded(m),
            ReplyView::Diagnostics(m) => diagnostics::reply::encoded(m),
            ReplyView::FetchCommunicationEventCounter(m) => {
                fetch_communication_event_counter::reply::encoded(m)
            },
            ReplyView::FetchCommunicationEventCounterLog(m) => {
                fetch_communication_event_counter_log::reply::encoded(m)
            },
            ReplyView::ForceMultipleCoils(m) => force_multiple_coils::reply::encoded(m),
            ReplyView::PresetMultipleRegisters(m) => preset_multiple_registers::reply::encoded(m),
            ReplyView::ReportSlaveID(m) => report_slave_id::reply::encoded(m),
        }
    }
}

/// The reply that `bytes` hold, in the layout that the function code at
/// offset 7 selects. The code is one of the twelve known ones.
pub open spec fn reply_decoded(bytes: Seq<u8>) -> Result<ReplyView, DecodeError>
    recommends
        bytes.len() >= MINIMUM_PACKET_SIZE,
        FunctionField(bytes[7]).is_known(),
{
    let function = bytes[7];
    if function == FunctionFieldValues::ReadCoilStatus {
        match read_coil_status::reply::decoded(bytes) {
            Ok(m) => Ok(ReplyView::ReadCoilStatus(m)),
            Err(e) => Err(e),
        }
    } else if function == FunctionFieldValues::ReadInputStatus {
        match read_input_status::reply::decoded(bytes) {
            Ok(m) => Ok(ReplyView::ReadInputStatus(m)),
            Err(e) => Err(e),
        }
    } else if function == FunctionFieldValues::ReadHoldingRegister {
        match read_holding_register::reply::decoded(bytes) {
            Ok(m) => Ok(ReplyView::ReadHoldingRegister(m)),
            Err(e) => Err(e),
        }
    } else if function == FunctionFieldValues::ReadInputRegister {
        match read_input_register::reply::decoded(bytes) {
            Ok(m) => Ok(ReplyView::ReadInputRegister(m)),
            Err(e) => Err(e),
        }
    } else if function == FunctionFieldValues::ForceSingleCoil {
        match force_single_coil::reply::decoded(bytes) {
            Ok(m) => Ok(ReplyView::ForceSingleCoil(m)),
            Err(e) => Err(e),
        }
    } else if function == FunctionFieldValues::PresetSingleRegister {
        match preset_single_register::reply::decoded(bytes) {
            Ok(m) => Ok(ReplyView::PresetSingleRegister(m)),
            Err(e) => Err(e),
        }
    } else if function == FunctionFieldValues::Diagnostics {
        match diagnostics::reply::decoded(bytes) {
            Ok(m) => Ok(ReplyView::Diagnostics(m)),
            Err(e) => Err(e),
        }
    } else if function == FunctionFieldValues::FetchCommunicationEventCounter {
        match fetch_communication_event_counter::reply::decoded(bytes) {
            Ok(m) => Ok(ReplyView::FetchCommunicationEventCounter(m)),
            Err(e) => Err(e),
        }
    } else if function == FunctionFieldValues::FetchCommunicationEventCounterLog {
        match fetch_communication_event_counter_log::reply::decoded(bytes) {
            Ok(m) => Ok(ReplyView::FetchCommunicationEventCounterLog(m)),
            Err(e) => Err(e),
        }
    } else if function == FunctionFieldValues::ForceMultipleCoils {
        match force_multiple_coils::reply::decoded(bytes) {
            Ok(m) => Ok(ReplyView::ForceMultipleCoils(m)),
            Err(e) => Err(e),
        }
    } else if function == FunctionFieldValues::PresetMultipleRegisters {
        match preset_multiple_registers::reply::decoded(bytes) {
            Ok(m) => Ok(ReplyView::PresetMultipleRegisters(m)),
            Err(e) => Err(e),
        }
    } else {
        match report_slave_id::reply::decoded(bytes) {
            Ok(m) => Ok(ReplyView::ReportSlaveID(m)),
            Err(e) => Err(e),
        }
    }
}

/// Decodes `packet` as the reply that its function code selects.
fn decode_reply(packet: &[u8]) -> (message: Result<Reply, DecodeError>)
    requires
        packet@.len() >= MINIMUM_PACKET_SIZE,
        FunctionField(packet@[7]).is_known(),
    ensures
        match message {
            Ok(m) => reply_decoded(packet@) == Ok::<ReplyView, DecodeError>(m@),
            Err(e) => reply_decoded(packet@) == Err::<ReplyView, DecodeError>(e),
        },
{
    let function = u8_at(packet, 7);
    if function == FunctionFieldValues::ReadCoilStatus {
        return match read_coil_status::reply::Modbus::decode(packet) {
            Ok(m) => Ok(Reply::ReadCoilStatus(m)),
            Err(e) => Err(e),
        };
    }
    if function == FunctionFieldValues::ReadInputStatus {
        return match read_input_status::reply::Modbus::decode(packet) {
            Ok(m) => Ok(Reply::ReadInputStatus(m)),
            Err(e) => Err(e),
        };
    }
    if function == FunctionFieldValues::ReadHoldingRegister {
        return match read_holding_register::reply::Modbus::decode(packet) {
            Ok(m) => Ok(Reply::ReadHoldingRegister(m)),
            Err(e) => Err(e),
        };
    }
    if function == FunctionFieldValues::ReadInputRegister {
        return match read_input_register::reply::Modbus::decode(packet) {
            Ok(m) => Ok(Reply::ReadInputRegister(m)),
            Err(e) => Err(e),
        };
    }
    if function == FunctionFieldValues::ForceSingleCoil {
        return match force_single_coil::reply::Modbus::decode(packet) {
            Ok(m) => Ok(Reply::ForceSingleCoil(m)),
            Err(e) => Err(e),
        };
    }
    if function == FunctionFieldValues::PresetSingleRegister {
        return match preset_single_register::reply::Modbus::decode(packet) {
            Ok(m) => Ok(Reply::PresetSingleRegister(m)),
            Err(e) => Err(e),
        };
    }
    if function == FunctionFieldValues::Diagnostics {
        return match diagnostics::reply::Modbus::decode(packet) {
            Ok(m) => Ok(Reply::Diagnostics(m)),
            Err(e) => Err(e),
        };
    }
    if function == FunctionFieldValues::FetchCommunicationEventCounter {
        return match fetch_communication_event_counter::reply::Modbus::decode(packet) {
            Ok(m) => Ok(Reply::FetchCommunicationEventCounter(m)),
            Err(e) => Err(e),
        };
    }
    if function == FunctionFieldValues::FetchCommunicationEventCounterLog {
        return match fetch_communication_event_counter_log::reply::Modbus::decode(packet) {
            Ok(m) => Ok(Reply::FetchCommunicationEventCounterLog(m)),
            Err(e) => Err(e),
        };
    }
    if function == FunctionFieldValues::ForceMultipleCoils {
        return match force_multiple_coils::reply::Modbus::decode(packet) {
            Ok(m) => Ok(Reply::ForceMultipleCoils(m)),
            Err(e) => Err(e),
        };
    }
    if function == FunctionFieldValues::PresetMultipleRegisters {
        return match preset_multiple_registers::reply::Modbus::decode(packet) {
            Ok(m) => Ok(Reply::PresetMultipleRegisters(m)),
            Err(e) => Err(e),
        };
    }
    match report_slave_id::reply::Modbus::decode(packet) {
        Ok(m) => Ok(Reply::ReportSlaveID(m)),
        Err(e) => Err(e),
    }
}

/// Decoding a reply loses nothing: the bytes of what was decoded are the
/// bytes it was decoded from.
pub proof fn lemma_reply_encoded_decoded(bytes: Seq<u8>)
    ensures
        reply_decoded(bytes) matches Ok(message) ==> message.encoded() == bytes,
{
    read_coil_status::reply::lemma_encoded_decoded(bytes);
    read_input_status::reply::lemma_encoded_decoded(bytes);
    read_holding_register::reply::lemma_encoded_decoded(bytes);
    read_input_register::reply::lemma_encoded_decoded(bytes);
    force_single_coil::reply::lemma_encoded_decoded(bytes);
    preset_single_register::reply::lemma_encoded_decoded(bytes);
    diagnostics::reply::lemma_encoded_decoded(bytes);
    fetch_communication_event_counter::reply::lemma_encoded_decoded(bytes);
    fetch_communication_event_counter_log::reply::lemma_encoded_decoded(bytes);
    force_multiple_coils::reply::lemma_encoded_decoded(bytes);
    preset_multiple_registers::reply::lemma_encoded_decoded(bytes);
    report_slave_id::reply::lemma_encoded_decoded(bytes);
}

/// Decoding the bytes of a well-formed reply gives the reply back.
pub proof fn lemma_reply_decoded_encoded(message: ReplyView)
    requires
        message.wf(),
    ensures
        message.encoded().len() >= MINIMUM_PACKET_SIZE,
        message.encoded()[7] == message.code(),
        reply_decoded(message.encoded()) == Ok::<ReplyView, DecodeError>(message),
{
    match message {
        ReplyView::ReadCoilStatus(m) => {
            read_coil_status::reply::lemma_decoded_encoded(m);
        },
        ReplyView::ReadInputStatus(m) => {
            read_input_status::reply::lemma_decoded_encoded(m);
        },
        ReplyView::ReadHoldingRegister(m) => {
            read_holding_register::reply::lemma_decoded_encoded(m);
        },
        ReplyView::ReadInputRegister(m) => {
            read_input_register::reply::lemma_decoded_encoded(m);
        },
        ReplyView::ForceSingleCoil(m) => {
            force_single_coil::reply::lemma_decoded_encoded(m);
        },
        ReplyView::PresetSingleRegister(m) => {
            preset_single_register::reply::lemma_decoded_encoded(m);
        },
        ReplyView::Diagnostics(m) => {
            diagnostics::reply::lemma_decoded_encoded(m);
        },
        ReplyView::FetchCommunicationEventCounter(m) => {
            fetch_communication_event_counter::reply::lemma_decoded_encoded(m);
        },
        ReplyView::FetchCommunicationEventCounterLog(m) => {
            fetch_communication_event_counter_log::reply::lemma_decoded_encoded(m);
        },
        ReplyView::ForceMultipleCoils(m) => {
            force_multiple_coils::reply::lemma_decoded_encoded(m);
        },
        ReplyView::PresetMultipleRegisters(m) => {
            preset_multiple_registers::reply::lemma_decoded_encoded(m);
        },
        ReplyView::ReportSlaveID(m) => {
            report_slave_id::reply::lemma_decoded_encoded(m);
        },
    }
}

/// A decoded message of either direction.
#[derive(Clone, Debug, PartialEq, Eq)]
pub enum Message {
    Request(Request),
    Reply(Reply),
}

/// What a [`Message`] holds, as mathematical values.
pub enum MessageView {
    Request(RequestView),
    Reply(ReplyView),
}

impl View for Message {
    type V = MessageView;

    open spec fn view(&self) -> MessageView {
        match self {
            Message::Request(m) => MessageView::Request(m@),
            Message::Reply(m) => MessageView::Reply(m@),
        }
    }
}

impl MessageView {
    /// The direction in which the message travels.
    pub open spec fn direction(self) -> Direction {
        match self {
            MessageView::Request(_) => Direction::Request,
            MessageView::Reply(_) => Direction::Reply,
        }
    }

    /// The message carries the function code of its layout, and its byte
    /// count, where it has one, is that of its data.
    pub open spec fn wf(self) -> bool {
        match self {
            MessageView::Request(m) => m.wf(),
            MessageView::Reply(m) => m.wf(),
        }
    }

    /// The bytes of the message.
    pub open spec fn encoded(self) -> Seq<u8> {
        match self {
            MessageView::Request(m) => m.encoded(),
            MessageView::Reply(m) => m.encoded(),
        }
    }
}

/// What the application decoder makes of a TCP payload.
#[derive(Clone, Debug, PartialEq, Eq)]
pub enum Outcome {
    /// No Modbus message: neither port is the Modbus port, or the payload is
    /// shorter than the common header. This is routine, and no error.
    NotModbus,
    /// A message whose function code is none of the twelve known ones. It is
    /// reported by its common header, which holds the raw code, and the
    /// bytes behind it.
    Unknown { direction: Direction, header: ModbusTCP },
    /// A message with a known function code whose bytes do not fit the
    /// layout of that function.
    Malformed { direction: Direction, function: FunctionField, error: DecodeError },
    /// A message, decoded field by field.
    Decoded(Message),
}

/// What an [`Outcome`] holds, as mathematical values.
pub enum OutcomeView {
    NotModbus,
    Unknown { direction: Direction, header: ModbusTCPView },
    Malformed { direction: Direction, function: FunctionField, error: DecodeError },
    Decoded(MessageView),
}

impl View for Outcome {
    type V = OutcomeView;

    open spec fn view(&self) -> OutcomeView {
        match self {
            Outcome::NotModbus => OutcomeView::NotModbus,
            Outcome::Unknown { direction, header } => OutcomeView::Unknown {
                direction: *direction,
                header: header@,
            },
            Outcome::Malformed { direction, function, error } => OutcomeView::Malformed {
                direction: *direction,
                function: *function,
                error: *error,
            },
            Outcome::Decoded(m) => OutcomeView::Decoded(m@),
        }
    }
}

/// What the application decoder makes of the payload `bytes` of a segment
/// that travels in `direction`.
pub open spec fn dissected(direction: Direction, bytes: Seq<u8>) -> OutcomeView {
    if direction == Direction::NotModbus {
        OutcomeView::NotModbus
    } else {
        match decoded(bytes) {
            Err(_) => OutcomeView::NotModbus,
            Ok(header) => if !header.function.is_known() {
                OutcomeView::Unknown { direction, header }
            } else if direction == Direction::Request {
                match request_decoded(bytes) {
                    Ok(m) => OutcomeView::Decoded(MessageView::Request(m)),
                    Err(error) => OutcomeView::Malformed {
                        direction,
                        function: header.function,
                        error,
                    },
                }
            } else {
                match reply_decoded(bytes) {
                    Ok(m) => OutcomeView::Decoded(MessageView::Reply(m)),
                    Err(error) => OutcomeView::Malformed {
                        direction,
                        function: header.function,
                        error,
                    },
                }
            },
        }
    }
}

/// Decodes the payload of a TCP segment that travels in `direction`.
///
/// Without a direction nothing is read. Otherwise the common header is
/// decoded first; a payload too short for it is no Modbus message. The
/// function code then selects, with the direction, the layout in which the
/// whole payload is decoded again from its first byte.
pub fn decode(direction: Direction, packet: &[u8]) -> (outcome: Outcome)
    ensures
        outcome@ == dissected(direction, packet@),
{
    if direction == Direction::NotModbus {
        return Outcome::NotModbus;
    }
    let header = match ModbusTCP::decode(packet) {
        Ok(header) => header,
        Err(_) => {
            return Outcome::NotModbus;
        },
    };
    if !header.function.known() {
        return Outcome::Unknown { direction, header };
    }
    let function = header.function;
    if direction == Direction::Request {
        match decode_request(packet) {
            Ok(m) => Outcome::Decoded(Message::Request(m)),
            Err(error) => Outcome::Malformed { direction, function, error },
        }
    } else {
        match decode_reply(packet) {
            Ok(m) => Outcome::Decoded(Message::Reply(m)),
            Err(error) => Outcome::Malformed { direction, function, error },
        }
    }
}

/// Whether the messages of this direction and function code hold data whose
/// length a byte count declares.
pub open spec fn byte_count_driven(direction: Direction, function: u8) -> bool {
    ||| direction == Direction::Reply && (function == FunctionFieldValues::ReadCoilStatus
        || function == FunctionFieldValues::ReadInputStatus || function
        == FunctionFieldValues::ReadHoldingRegister || function
        == FunctionFieldValues::ReadInputRegister || function
        == FunctionFieldValues::FetchCommunicationEventCounterLog)
    ||| direction == Direction::Request && (function == FunctionFieldValues::ForceMultipleCoils
        || function == FunctionFieldValues::PresetMultipleRegisters)
}

/// The number of bytes that the fixed fields of a byte-count-driven message
/// take, the byte count among them.
pub open spec fn fixed_size(direction: Direction, function: u8) -> nat
    recommends
        byte_count_driven(direction, function),
{
    if direction == Direction::Request {
        13
    } else if function == FunctionFieldValues::FetchCommunicationEventCounterLog {
        15
    } else {
        9
    }
}

/// The number of data bytes that a byte-count-driven message declares.
pub open spec fn declared_data_length(direction: Direction, bytes: Seq<u8>) -> int
    recommends
        bytes.len() >= 8,
        byte_count_driven(direction, bytes[7]),
        bytes.len() >= fixed_size(direction, bytes[7]),
{
    if direction == Direction::Request {
        bytes[12] as int
    } else if bytes[7] == FunctionFieldValues::FetchCommunicationEventCounterLog {
        bytes[8] - 6
    } else {
        bytes[8] as int
    }
}

/// Decoding the bytes of a well-formed message, in the direction of the
/// message, gives the message back: every field has the value that was
/// encoded. This holds for each of the twelve functions, request and reply.
pub proof fn lemma_decode_encoded(message: MessageView)
    requires
        message.wf(),
    ensures
        dissected(message.direction(), message.encoded()) == OutcomeView::Decoded(message),
{
    match message {
        MessageView::Request(m) => {
            lemma_request_decoded_encoded(m);
        },
        MessageView::Reply(m) => {
            lemma_reply_decoded_encoded(m);
        },
    }
}

/// Decoding loses nothing: the bytes of a decoded message are the bytes it
/// was decoded from.
pub proof fn lemma_encoded_dissected(direction: Direction, bytes: Seq<u8>)
    ensures
        dissected(direction, bytes) matches OutcomeView::Decoded(message) ==> message.encoded()
            == bytes,
{
    if let OutcomeView::Decoded(message) = dissected(direction, bytes) {
        match message {
            MessageView::Request(_) => {
                lemma_request_encoded_decoded(bytes);
            },
            MessageView::Reply(_) => {
                lemma_reply_encoded_decoded(bytes);
            },
        }
    }
}

/// Whatever is decoded is a well-formed message of the direction it was
/// decoded in.
pub proof fn lemma_dissected_well_formed(direction: Direction, bytes: Seq<u8>)
    ensures
        dissected(direction, bytes) matches OutcomeView::Decoded(message) ==> message.wf()
            && message.direction() == direction,
{
}

/// A byte-count-driven message whose byte count claims more data than the
/// slice holds behind the fixed fields is malformed, whatever its other
/// bytes are.
pub proof fn lemma_excess_count_is_malformed(direction: Direction, bytes: Seq<u8>)
    requires
        bytes.len() >= MINIMUM_PACKET_SIZE,
        byte_count_driven(direction, bytes[7]),
        bytes.len() >= fixed_size(direction, bytes[7]),
        declared_data_length(direction, bytes) > bytes.len() - fixed_size(direction, bytes[7]),
    ensures
        dissected(direction, bytes) == (OutcomeView::Malformed {
            direction,
            function: FunctionField(bytes[7]),
            error: DecodeError::ByteCount,
        }),
{
}

/// A slice shorter than the common header is no Modbus message, in whatever
/// direction. That holds of every slice shorter than the seven bytes before
/// the function code, and of one of just those seven bytes, which holds no
/// function code to go by.
pub proof fn lemma_short_slice_not_modbus(direction: Direction, bytes: Seq<u8>)
    requires
        bytes.len() < MINIMUM_PACKET_SIZE,
    ensures
        dissected(direction, bytes) == OutcomeView::NotModbus,
{
}

/// A segment with the Modbus port on neither side holds no Modbus message,
/// whatever its payload.
pub proof fn lemma_other_ports_not_modbus(source_port: u16, destination_port: u16, bytes: Seq<u8>)
    requires
        source_port != MODBUS_PORT,
        destination_port != MODBUS_PORT,
    ensures
        dissected(direction(source_port, destination_port), bytes) == OutcomeView::NotModbus,
{
}

} // verus!
