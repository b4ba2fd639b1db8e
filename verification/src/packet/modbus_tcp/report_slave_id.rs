//! Function 17: report slave id.

pub mod reply;
pub mod request;
