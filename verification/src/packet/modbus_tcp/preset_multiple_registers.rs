//! Function 16: preset multiple registers.

pub mod reply;
pub mod request;
