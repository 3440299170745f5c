//! Run plans: the resolved settings of one benchmark run.

use vstd::prelude::*;
use crate::config::DlioConfig;
use crate::dlio_config::{LoaderSettings, PoolSettings, or_default};

verus! {

/// The resolved settings of a run.
#[derive(Debug, Clone)]
pub struct RunPlan {
    pub uri: String,
    pub format: String,
    pub batch_size: usize,
    pub prefetch: usize,
    pub shuffle: bool,
    pub read_threads: usize,
    pub drop_last: bool,
    pub seed: Option<u64>,
    pub num_files_train: Option<usize>,
    pub record_length_bytes: Option<usize>,
    pub num_samples_per_file: Option<usize>,
}

impl RunPlan {
    /// This plan resolves `cfg`: batches of 1, prefetch 4, no shuffle,
    /// 1 read thread and no dropping of the last batch unless set.
    pub open spec fn spec_matches(&self, cfg: &DlioConfig) -> bool {
        &&& self.uri@ == cfg.dataset.data_folder@
        &&& self.format@ == cfg.dataset.format@
        &&& self.batch_size == or_default(cfg.reader.batch_size, 1)
        &&& self.prefetch == or_default(cfg.reader.prefetch, 4)
        &&& self.shuffle == or_default(cfg.reader.shuffle, false)
        &&& self.read_threads == or_default(cfg.reader.read_threads, 1)
        &&& self.drop_last == or_default(cfg.reader.drop_last, false)
        &&& self.seed == cfg.reader.seed
        &&& self.num_files_train == cfg.dataset.num_files_train
        &&& self.record_length_bytes == cfg.dataset.record_length_bytes
        &&& self.num_samples_per_file == cfg.dataset.num_samples_per_file
    }

    /// Resolves a configuration into a plan.
    pub fn from_config(cfg: &DlioConfig) -> (r: Self)
        ensures
            r.spec_matches(cfg),
    {
        let r = &cfg.reader;
        RunPlan {
            uri: cfg.dataset.data_folder.clone(),
            format: cfg.dataset.format.clone(),
            batch_size: match r.batch_size {
                Some(v) => v,
                None => 1,
            },
            prefetch: match r.prefetch {
                Some(v) => v,
                None => 4,
            },
            shuffle: match r.shuffle {
                Some(v) => v,
                None => false,
            },
            read_threads: match r.read_threads {
                Some(v) => v,
                None => 1,
            },
            drop_last: match r.drop_last {
                Some(v) => v,
                None => false,
            },
            seed: r.seed,
            num_files_train: cfg.dataset.num_files_train,
            record_length_bytes: cfg.dataset.record_length_bytes,
            num_samples_per_file: cfg.dataset.num_samples_per_file,
        }
    }

    /// Loader options of the plan; the seed is 0 unless set.
    pub fn to_loader_options(&self) -> (r: LoaderSettings)
        ensures
            r == (LoaderSettings {
                batch_size: self.batch_size,
                prefetch: self.prefetch,
                shuffle: self.shuffle,
                num_workers: self.read_threads,
                seed: Some(or_default(self.seed, 0)),
            }),
    {
        LoaderSettings {
            batch_size: self.batch_size,
            prefetch: self.prefetch,
            shuffle: self.shuffle,
            num_workers: self.read_threads,
            seed: Some(
                match self.seed {
                    Some(s) => s,
                    None => 0,
                },
            ),
        }
    }

    /// Pool options of the plan: 16 concurrent requests, read-ahead of the
    /// prefetch depth but at least 2 batches, a 10 s batch timeout and at
    /// most 64 requests in flight.
    pub fn to_pool_config(&self) -> (r: PoolSettings)
        ensures
            r == (PoolSettings {
                pool_size: 16,
                readahead_batches: if self.prefetch > 2 {
                    self.prefetch
                } else {
                    2
                },
                batch_timeout_secs: 10,
                max_inflight: 64,
            }),
    {
        PoolSettings {
            pool_size: 16,
            readahead_batches: if self.prefetch > 2 {
                self.prefetch
            } else {
                2
            },
            batch_timeout_secs: 10,
            max_inflight: 64,
        }
    }
}

impl Default for RunPlan {
    /// A plan for a local NPZ dataset under /tmp/default, with every
    /// reader setting at its default.
    fn default() -> (r: Self)
        ensures
            r.uri@ == "file:///tmp/default"@,
            r.format@ == "npz"@,
            r.batch_size == 1,
            r.prefetch == 4,
            !r.shuffle,
            r.read_threads == 1,
            !r.drop_last,
            r.seed is None,
            r.num_files_train is None,
            r.record_length_bytes is None,
            r.num_samples_per_file is None,
    {
        RunPlan {
            uri: String::from_str("file:///tmp/default"),
            format: String::from_str("npz"),
            batch_size: 1,
            prefetch: 4,
            shuffle: false,
            read_threads: 1,
            drop_last: false,
            seed: None,
            num_files_train: None,
            record_length_bytes: None,
            num_samples_per_file: None,
        }
    }
}

} // verus!
