//! Measures the throughput of a byte stream: a sampler decides when to read,
//! counts what was read, reports cumulative and instantaneous transfer rates at
//! most once a second and at the end of the stream, and says which bytes to
//! copy on in passthrough mode. The reads, writes and the clock are the
//! caller's.
pub mod config;
pub mod laws;
pub mod report;
pub mod sampler;
pub mod stats;
pub mod units;
