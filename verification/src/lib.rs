//! OxidPulse diagnostics engine: the verified decision logic behind the
//! hardware health report, storage SMART evaluation, crash-stability
//! assessment, power-throttling diagnosis and the benchmark classifiers.
//!
//! Physical quantities that the user interface shows with one decimal place
//! are held as integers of tenths (a temperature of 41.5 °C is `415`), so that
//! every rule can be stated and proved exactly.

pub mod text;
pub mod stats;
pub mod model;
pub mod scoring;
pub mod json;
pub mod crash_dump;
pub mod power;
pub mod storage;
pub mod gpu;
pub mod ai_bench;
pub mod bench;
pub mod battery;
pub mod sensors;
pub mod system_info;
pub mod network;
pub mod latency;
pub mod stress;
pub mod report;
