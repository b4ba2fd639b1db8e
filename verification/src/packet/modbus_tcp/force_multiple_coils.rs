//! Function 15: force multiple coils.

pub mod reply;
pub mod request;
