//! The compact workload configuration that run plans and checkpointing
//! are built from.

use vstd::prelude::*;
use crate::checkpoint::Checkpoint;
use crate::dlio_config::{ConfigError, LoaderSettings, or_default};
use crate::plan::RunPlan;
use crate::uri::{StorageBackend, backend_of, storage_backend};

verus! {

#[derive(Debug, Clone, Default)]
pub struct Model {
    pub name: Option<String>,
    pub model_size: Option<u64>,
}

#[derive(Debug, Clone, Default)]
pub struct Workflow {
    pub generate_data: Option<bool>,
    pub train: Option<bool>,
    pub checkpoint: Option<bool>,
    pub evaluation: Option<bool>,
}

/// Dataset location, format and sizes. The data folder is a URI with one
/// of the schemes file, directio, s3, az.
#[derive(Debug, Clone, Default)]
pub struct Dataset {
    pub data_folder: String,
    pub format: String,
    pub num_files_train: Option<usize>,
    pub num_files_eval: Option<usize>,
    pub record_length_bytes: Option<usize>,
    pub num_samples_per_file: Option<usize>,
    pub compression: Option<String>,
}

#[derive(Debug, Clone, Default)]
pub struct Reader {
    pub batch_size: Option<usize>,
    pub prefetch: Option<usize>,
    pub shuffle: Option<bool>,
    pub read_threads: Option<usize>,
    pub compute_threads: Option<usize>,
    pub drop_last: Option<bool>,
    pub seed: Option<u64>,
    pub data_loader: Option<String>,
}

/// A workload configuration.
#[derive(Debug, Clone, Default)]
pub struct DlioConfig {
    pub model: Option<Model>,
    pub framework: Option<String>,
    pub workflow: Option<Workflow>,
    pub dataset: Dataset,
    pub reader: Reader,
    pub checkpoint: Option<Checkpoint>,
}

/// A workflow switch; off when the switch or the whole section is absent.
pub open spec fn switch_of(w: Option<Workflow>, pick: spec_fn(Workflow) -> Option<bool>) -> bool {
    match w {
        Some(w) => or_default(pick(w), false),
        None => false,
    }
}

impl DlioConfig {
    /// The storage URI: the data folder.
    pub fn storage_uri(&self) -> (r: &str)
        ensures
            r@ == self.dataset.data_folder@,
    {
        self.dataset.data_folder.as_str()
    }

    /// The backend that the data folder's scheme selects.
    pub fn storage_backend(&self) -> (r: StorageBackend)
        ensures
            r == backend_of(self.dataset.data_folder@),
    {
        storage_backend(self.storage_uri())
    }

    pub fn data_folder_uri(&self) -> (r: &str)
        ensures
            r@ == self.dataset.data_folder@,
    {
        self.dataset.data_folder.as_str()
    }

    pub fn should_generate_data(&self) -> (r: bool)
        ensures
            r == switch_of(self.workflow, |w: Workflow| w.generate_data),
    {
        match &self.workflow {
            Some(w) => match w.generate_data {
                Some(b) => b,
                None => false,
            },
            None => false,
        }
    }

    pub fn should_train(&self) -> (r: bool)
        ensures
            r == switch_of(self.workflow, |w: Workflow| w.train),
    {
        match &self.workflow {
            Some(w) => match w.train {
                Some(b) => b,
                None => false,
            },
            None => false,
        }
    }

    pub fn should_checkpoint(&self) -> (r: bool)
        ensures
            r == switch_of(self.workflow, |w: Workflow| w.checkpoint),
    {
        match &self.workflow {
            Some(w) => match w.checkpoint {
                Some(b) => b,
                None => false,
            },
            None => false,
        }
    }

    /// Loader options: batches of 1, prefetch 1, no shuffle, 1 worker and
    /// seed 0 unless set.
    pub fn to_loader_options(&self) -> (r: LoaderSettings)
        ensures
            r == (LoaderSettings {
                batch_size: or_default(self.reader.batch_size, 1),
                prefetch: or_default(self.reader.prefetch, 1),
                shuffle: or_default(self.reader.shuffle, false),
                num_workers: or_default(self.reader.read_threads, 1),
                seed: Some(or_default(self.reader.seed, 0)),
            }),
    {
        LoaderSettings {
            batch_size: match self.reader.batch_size {
                Some(v) => v,
                None => 1,
            },
            prefetch: match self.reader.prefetch {
                Some(v) => v,
                None => 1,
            },
            shuffle: match self.reader.shuffle {
                Some(v) => v,
                None => false,
            },
            num_workers: match self.reader.read_threads {
                Some(v) => v,
                None => 1,
            },
            seed: Some(
                match self.reader.seed {
                    Some(v) => v,
                    None => 0,
                },
            ),
        }
    }

    /// The run plan of this configuration.
    pub fn to_run_plan(&self) -> (r: Result<RunPlan, ConfigError>)
        ensures
            r is Ok,
            r->Ok_0.spec_matches(self),
    {
        Ok(RunPlan::from_config(self))
    }
}

} // verus!
