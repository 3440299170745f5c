//! Benchmark driver library: multi-rank coordination over a shared region,
//! result aggregation, run metrics, storage URI handling and record framing.

pub mod uri;
pub mod coordination;
pub mod region;
pub mod guarantees;
pub mod metrics;
pub mod framework;
pub mod tfrecord;
pub mod formats;
pub mod sharding;
pub mod dlio_config;
pub mod checkpoint;
pub mod placement;
pub mod config;
pub mod plan;
pub mod dataset;
