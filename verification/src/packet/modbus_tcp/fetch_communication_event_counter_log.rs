//! Function 12: fetch communication event log.

pub mod reply;
pub mod request;
