//! Function 3: read holding register.

pub mod reply;
pub mod request;
