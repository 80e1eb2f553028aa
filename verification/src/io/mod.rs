//! Character input and output.

pub mod serial;
