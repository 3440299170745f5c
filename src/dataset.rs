//! Description of a dataset that a reader streams.

use vstd::prelude::*;
use crate::dlio_config::RunPlan;
use crate::uri::{detect_backend_from_uri, reader_backend_name_of};

verus! {

/// Size, format and backend of a dataset.
#[derive(Debug, Clone)]
pub struct DatasetMetadata {
    pub total_files: usize,
    pub total_samples: usize,
    pub total_bytes: u64,
    pub format: String,
    pub backend: String,
}

impl DatasetMetadata {
    /// The metadata of a plan's training split.
    pub fn from_run_plan(run_plan: &RunPlan) -> (r: Self)
        ensures
            r.total_files == run_plan.dataset.train.num_files,
            r.total_samples == run_plan.dataset.train.total_samples,
            r.total_bytes == run_plan.dataset.train.total_bytes,
            r.format@ == run_plan.dataset.format@,
            r.backend@ == reader_backend_name_of(run_plan.dataset.data_folder_uri@),
    {
        DatasetMetadata {
            total_files: run_plan.dataset.train.num_files,
            total_samples: run_plan.dataset.train.total_samples,
            total_bytes: run_plan.dataset.train.total_bytes,
            format: run_plan.dataset.format.clone(),
            backend: detect_backend_from_uri(run_plan.dataset.data_folder_uri.as_str()),
        }
    }

    /// The metadata of a dataset known only by its URI: sizes unknown (0)
    /// and format "unknown".
    pub fn from_uri(uri: &str) -> (r: Self)
        ensures
            r.total_files == 0,
            r.total_samples == 0,
            r.total_bytes == 0,
            r.format@ == "unknown"@,
            r.backend@ == reader_backend_name_of(uri@),
    {
        DatasetMetadata {
            total_files: 0,
            total_samples: 0,
            total_bytes: 0,
            format: String::from_str("unknown"),
            backend: detect_backend_from_uri(uri),
        }
    }
}

} // verus!
