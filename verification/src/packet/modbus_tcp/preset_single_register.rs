//! Function 6: preset single register.

pub mod reply;
pub mod request;
