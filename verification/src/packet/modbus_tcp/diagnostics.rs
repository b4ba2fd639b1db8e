//! Function 8: diagnostics.

pub mod reply;
pub mod request;
