//! Function 5: force single coil.

pub mod reply;
pub mod request;
