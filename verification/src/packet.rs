//! Packet formats that this crate defines itself.

pub mod modbus_tcp;
