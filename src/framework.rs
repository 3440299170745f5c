//! Framework data-loader settings: PyTorch and TensorFlow configurations,
//! their validation, and the PyTorch loader's state.

use vstd::prelude::*;
use crate::uri::{is_prefix_of, starts_with, str_eq};

verus! {

/// On-disk format of a dataset.
#[derive(Debug, Clone, Copy, PartialEq, Eq, Structural)]
pub enum FormatType {
    Npz,
    Hdf5,
    TfRecord,
}

/// Errors of framework configuration.
#[derive(Debug, Clone, PartialEq, Eq)]
pub enum FrameworkError {
    /// The dataset format is none of npz, hdf5, tfrecord.
    UnsupportedFormat(String),
    /// The data folder URI has none of the schemes file, s3, az, direct.
    UnsupportedDataFolder(String),
    /// Neither a PyTorch nor a TensorFlow configuration is given.
    NoFramework,
    /// The PyTorch batch size is 0.
    PyTorchBatchSizeZero,
    /// The PyTorch prefetch factor is given as 0.
    PyTorchPrefetchFactorZero,
    /// The TensorFlow batch size is 0.
    TensorFlowBatchSizeZero,
}

/// PyTorch DataLoader configuration.
#[derive(Debug, Clone)]
pub struct PyTorchConfig {
    pub batch_size: usize,
    pub num_workers: usize,
    pub shuffle: bool,
    pub seed: Option<u64>,
    pub pin_memory: bool,
    pub drop_last: bool,
    pub prefetch_factor: Option<usize>,
    pub persistent_workers: bool,
}

impl Default for PyTorchConfig {
    /// Batches of 32 from 4 shuffled workers, seed 42, prefetch factor 2.
    fn default() -> (r: Self)
        ensures
            r.batch_size == 32,
            r.num_workers == 4,
            r.shuffle,
            r.seed == Some(42u64),
            !r.pin_memory,
            !r.drop_last,
            r.prefetch_factor == Some(2usize),
            !r.persistent_workers,
    {
        PyTorchConfig {
            batch_size: 32,
            num_workers: 4,
            shuffle: true,
            seed: Some(42),
            pin_memory: false,
            drop_last: false,
            prefetch_factor: Some(2),
            persistent_workers: false,
        }
    }
}

/// TensorFlow dataset configuration; `None` leaves a value to autotuning.
#[derive(Debug, Clone)]
pub struct TensorFlowConfig {
    pub batch_size: usize,
    pub shuffle_buffer_size: Option<usize>,
    pub seed: Option<u64>,
    pub num_parallel_calls: Option<usize>,
    pub prefetch_buffer_size: Option<usize>,
    pub deterministic: bool,
}

impl Default for TensorFlowConfig {
    /// Batches of 32, a shuffle buffer of 1000, seed 42, deterministic.
    fn default() -> (r: Self)
        ensures
            r.batch_size == 32,
            r.shuffle_buffer_size == Some(1000usize),
            r.seed == Some(42u64),
            r.num_parallel_calls is None,
            r.prefetch_buffer_size is None,
            r.deterministic,
    {
        TensorFlowConfig {
            batch_size: 32,
            shuffle_buffer_size: Some(1000),
            seed: Some(42),
            num_parallel_calls: None,
            prefetch_buffer_size: None,
            deterministic: true,
        }
    }
}

/// The first problem of a pair of framework configurations, if any.
pub open spec fn framework_problem(pytorch: Option<PyTorchConfig>, tensorflow: Option<TensorFlowConfig>) -> Option<FrameworkError> {
    if pytorch is None && tensorflow is None {
        Some(FrameworkError::NoFramework)
    } else if pytorch is Some && pytorch->Some_0.batch_size == 0 {
        Some(FrameworkError::PyTorchBatchSizeZero)
    } else if pytorch is Some && pytorch->Some_0.prefetch_factor == Some(0usize) {
        Some(FrameworkError::PyTorchPrefetchFactorZero)
    } else if tensorflow is Some && tensorflow->Some_0.batch_size == 0 {
        Some(FrameworkError::TensorFlowBatchSizeZero)
    } else {
        None
    }
}

/// Checks a pair of framework configurations: at least one is given, batch
/// sizes are positive, and a given prefetch factor is positive.
pub fn validate_frameworks(pytorch: &Option<PyTorchConfig>, tensorflow: &Option<TensorFlowConfig>) -> (r: Result<(), FrameworkError>)
    ensures
        r is Ok <==> framework_problem(*pytorch, *tensorflow) is None,
        r is Err ==> Some(r->Err_0) == framework_problem(*pytorch, *tensorflow),
{
    if pytorch.is_none() && tensorflow.is_none() {
        return Err(FrameworkError::NoFramework);
    }
    if let Some(p) = pytorch {
        if p.batch_size == 0 {
            return Err(FrameworkError::PyTorchBatchSizeZero);
        }
        if let Some(f) = p.prefetch_factor {
            if f == 0 {
                return Err(FrameworkError::PyTorchPrefetchFactorZero);
            }
        }
    }
    if let Some(t) = tensorflow {
        if t.batch_size == 0 {
            return Err(FrameworkError::TensorFlowBatchSizeZero);
        }
    }
    Ok(())
}

/// The format type that a dataset format name selects.
pub open spec fn format_type_of(name: Seq<char>) -> Option<FormatType> {
    if name == "npz"@ {
        Some(FormatType::Npz)
    } else if name == "hdf5"@ {
        Some(FormatType::Hdf5)
    } else if name == "tfrecord"@ {
        Some(FormatType::TfRecord)
    } else {
        None
    }
}

/// Maps a dataset format name to its format type.
pub fn detect_format(format: &str) -> (r: Result<FormatType, FrameworkError>)
    ensures
        r is Ok <==> format_type_of(format@) is Some,
        r is Ok ==> Some(r->Ok_0) == format_type_of(format@),
        r is Err ==> r->Err_0 is UnsupportedFormat && r->Err_0->UnsupportedFormat_0@ == format@,
{
    if str_eq(format, "npz") {
        Ok(FormatType::Npz)
    } else if str_eq(format, "hdf5") {
        Ok(FormatType::Hdf5)
    } else if str_eq(format, "tfrecord") {
        Ok(FormatType::TfRecord)
    } else {
        Err(FrameworkError::UnsupportedFormat(String::from_str(format)))
    }
}

/// A data folder URI with a supported scheme: file, s3, az or direct.
pub open spec fn supported_data_folder(uri: Seq<char>) -> bool {
    is_prefix_of("file://"@, uri) || is_prefix_of("s3://"@, uri) || is_prefix_of("az://"@, uri)
        || is_prefix_of("direct://"@, uri)
}

/// Checks that a data folder URI has a supported scheme.
pub fn validate_data_folder(data_folder: &str) -> (r: Result<(), FrameworkError>)
    ensures
        r is Ok <==> supported_data_folder(data_folder@),
        r is Err ==> r->Err_0 is UnsupportedDataFolder && r->Err_0->UnsupportedDataFolder_0@ == data_folder@,
{
    if starts_with(data_folder, "file://") || starts_with(data_folder, "s3://") || starts_with(data_folder, "az://")
        || starts_with(data_folder, "direct://") {
        Ok(())
    } else {
        Err(FrameworkError::UnsupportedDataFolder(String::from_str(data_folder)))
    }
}

/// PyTorch data-loader settings for one dataset, with the epoch counter and
/// the seed used for reproducible shuffling.
#[derive(Debug, Clone)]
pub struct PyTorchDataLoader {
    pytorch_config: PyTorchConfig,
    format_type: FormatType,
    current_epoch: usize,
    seed_state: Option<u64>,
    data_folder: String,
}

impl PyTorchDataLoader {
    pub closed spec fn spec_pytorch_config(&self) -> PyTorchConfig {
        self.pytorch_config
    }

    pub closed spec fn spec_format_type(&self) -> FormatType {
        self.format_type
    }

    pub closed spec fn spec_current_epoch(&self) -> usize {
        self.current_epoch
    }

    pub closed spec fn spec_seed_state(&self) -> Option<u64> {
        self.seed_state
    }

    pub closed spec fn spec_data_folder(&self) -> Seq<char> {
        self.data_folder@
    }

    /// A loader for a dataset of format `dataset_format` under `data_folder`,
    /// at epoch 0 and seeded from the configuration. Fails on an unknown
    /// format, then on a data folder of an unsupported scheme.
    pub fn from_dataset_format(dataset_format: &str, pytorch_config: PyTorchConfig, data_folder: String) -> (r: Result<Self, FrameworkError>)
        ensures
            r is Ok <==> format_type_of(dataset_format@) is Some && supported_data_folder(data_folder@),
            format_type_of(dataset_format@) is None ==> r is Err && r->Err_0 is UnsupportedFormat,
            format_type_of(dataset_format@) is Some && !supported_data_folder(data_folder@) ==> r is Err && r->Err_0 is UnsupportedDataFolder,
            r is Ok ==> ({
                let l = r->Ok_0;
                &&& Some(l.spec_format_type()) == format_type_of(dataset_format@)
                &&& l.spec_pytorch_config() == pytorch_config
                &&& l.spec_current_epoch() == 0
                &&& l.spec_seed_state() == pytorch_config.seed
                &&& l.spec_data_folder() == data_folder@
            }),
    {
        let format_type = match detect_format(dataset_format) {
            Ok(f) => f,
            Err(e) => return Err(e),
        };
        match validate_data_folder(data_folder.as_str()) {
            Ok(()) => {},
            Err(e) => return Err(e),
        }
        let seed_state = pytorch_config.seed;
        Ok(PyTorchDataLoader { pytorch_config, format_type, current_epoch: 0, seed_state, data_folder })
    }

    pub fn pytorch_config(&self) -> (r: &PyTorchConfig)
        ensures
            *r == self.spec_pytorch_config(),
    {
        &self.pytorch_config
    }

    pub fn format_type(&self) -> (r: &FormatType)
        ensures
            *r == self.spec_format_type(),
    {
        &self.format_type
    }

    pub fn data_folder(&self) -> (r: &str)
        ensures
            r@ == self.spec_data_folder(),
    {
        self.data_folder.as_str()
    }

    pub fn current_epoch(&self) -> (r: usize)
        ensures
            r == self.spec_current_epoch(),
    {
        self.current_epoch
    }

    /// Advances to the next epoch and returns its number.
    pub fn next_epoch(&mut self) -> (r: usize)
        requires
            old(self).spec_current_epoch() < usize::MAX,
        ensures
            r == old(self).spec_current_epoch() + 1,
            final(self).spec_current_epoch() == r,
            final(self).spec_pytorch_config() == old(self).spec_pytorch_config(),
            final(self).spec_format_type() == old(self).spec_format_type(),
            final(self).spec_seed_state() == old(self).spec_seed_state(),
            final(self).spec_data_folder() == old(self).spec_data_folder(),
    {
        self.current_epoch = self.current_epoch + 1;
        self.current_epoch
    }

    /// Returns to epoch 0.
    pub fn reset_epoch(&mut self)
        ensures
            final(self).spec_current_epoch() == 0,
            final(self).spec_pytorch_config() == old(self).spec_pytorch_config(),
            final(self).spec_format_type() == old(self).spec_format_type(),
            final(self).spec_seed_state() == old(self).spec_seed_state(),
            final(self).spec_data_folder() == old(self).spec_data_folder(),
    {
        self.current_epoch = 0;
    }

    pub fn seed_state(&self) -> (r: Option<u64>)
        ensures
            r == self.spec_seed_state(),
    {
        self.seed_state
    }

    /// Replaces the seed used for the next epoch.
    pub fn update_seed_state(&mut self, new_seed: Option<u64>)
        ensures
            final(self).spec_seed_state() == new_seed,
            final(self).spec_current_epoch() == old(self).spec_current_epoch(),
            final(self).spec_pytorch_config() == old(self).spec_pytorch_config(),
            final(self).spec_format_type() == old(self).spec_format_type(),
            final(self).spec_data_folder() == old(self).spec_data_folder(),
    {
        self.seed_state = new_seed;
    }
}

} // verus!
