//! Function 2: read input status.

pub mod reply;
pub mod request;
