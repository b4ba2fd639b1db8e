//! Function 1: read coil status.

pub mod reply;
pub mod request;
