//! Host metrics: readings of CPU, memory and disk state taken from the
//! operating system's collector, and the snapshot a caller is served.

pub mod collector;
pub mod reading;
pub mod sampler;
pub mod share;
pub mod store;
