//! Selects which monitor a screenshot should be taken of: decodes the
//! locally configured screen index, auto-detects the monitor that an
//! external display configuration names when asked to, and builds the
//! timestamped file name the capture is saved under.

pub mod adapter;
pub mod config;
pub mod digits;
pub mod resolve;
pub mod stamp;
