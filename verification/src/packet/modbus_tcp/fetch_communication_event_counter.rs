//! Function 11: fetch communication event counter.

pub mod reply;
pub mod request;
