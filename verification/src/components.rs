//! The data sources that ship with the bar, and the texts of those that the
//! caller samples.

pub mod clock;
pub mod either;
pub mod label;
pub mod metrics;
