//! Function 4: read input register.

pub mod reply;
pub mod request;
