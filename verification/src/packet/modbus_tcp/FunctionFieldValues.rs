//! The function codes that have a layout of their own, as the raw byte that
//! a [`FunctionField`](crate::packet::modbus_tcp::FunctionField) wraps.

use vstd::prelude::*;

verus! {

/// Read coil status.
#[allow(non_upper_case_globals)]
pub const ReadCoilStatus: u8 = 1;

/// Read input status.
#[allow(non_upper_case_globals)]
pub const ReadInputStatus: u8 = 2;

/// Read holding register.
#[allow(non_upper_case_globals)]
pub const ReadHoldingRegister: u8 = 3;

/// Read input register.
#[allow(non_upper_case_globals)]
pub const ReadInputRegister: u8 = 4;

/// Force single coil.
#[allow(non_upper_case_globals)]
pub const ForceSingleCoil: u8 = 5;

/// Preset single register.
#[allow(non_upper_case_globals)]
pub const PresetSingleRegister: u8 = 6;

/// Diagnostics.
#[allow(non_upper_case_globals)]
pub const Diagnostics: u8 = 8;

/// Fetch communication event counter.
#[allow(non_upper_case_globals)]
pub const FetchCommunicationEventCounter: u8 = 11;

/// Fetch communication event log.
#[allow(non_upper_case_globals)]
pub const FetchCommunicationEventCounterLog: u8 = 12;

/// Force multiple coils.
#[allow(non_upper_case_globals)]
pub const ForceMultipleCoils: u8 = 15;

/// Preset multiple registers.
#[allow(non_upper_case_globals)]
pub const PresetMultipleRegisters: u8 = 16;

/// Report slave id.
#[allow(non_upper_case_globals)]
pub const ReportSlaveID: u8 = 17;

} // verus!
