//! DLIO workload configuration and its conversion into a run plan.

use vstd::prelude::*;
use vstd::string::*;
use crate::uri::{find_first, is_prefix_of, occurs_at, starts_with, str_eq};

verus! {

#[derive(Debug, Clone, Default)]
pub struct ModelConfig {
    pub name: Option<String>,
    pub model_size: Option<u64>,
    pub framework: Option<String>,
}

#[derive(Debug, Clone, Default)]
pub struct WorkflowConfig {
    pub generate_data: Option<bool>,
    pub train: Option<bool>,
    pub checkpoint: Option<bool>,
    pub evaluation: Option<bool>,
}

#[derive(Debug, Clone, Default)]
pub struct DatasetConfig {
    pub data_folder: String,
    pub format: Option<String>,
    pub num_files_train: Option<usize>,
    pub num_files_eval: Option<usize>,
    pub record_length_bytes: Option<usize>,
    pub num_samples_per_file: Option<usize>,
    pub compression: Option<String>,
}

#[derive(Debug, Clone, Default)]
pub struct ReaderConfig {
    pub data_loader: Option<String>,
    pub batch_size: Option<usize>,
    pub prefetch: Option<usize>,
    pub shuffle: Option<bool>,
    pub read_threads: Option<usize>,
    pub compute_threads: Option<usize>,
    pub transfer_size: Option<usize>,
    pub file_access_type: Option<String>,
    pub seed: Option<u64>,
}

#[derive(Debug, Clone, Default)]
pub struct CheckpointingConfig {
    pub checkpoint_folder: Option<String>,
    pub checkpoint_after_epoch: Option<usize>,
    pub epochs_between_checkpoints: Option<usize>,
    pub steps_between_checkpoints: Option<usize>,
}

#[derive(Debug, Clone, Default)]
pub struct ProfilingConfig {
    pub profiler: Option<String>,
    pub profile_folder: Option<String>,
    pub iostat: Option<bool>,
}

#[derive(Debug, Clone, Default)]
pub struct PyTorchFrameworkConfig {
    pub batch_size: Option<usize>,
    pub num_workers: Option<usize>,
    pub shuffle: Option<bool>,
    pub seed: Option<u64>,
    pub pin_memory: Option<bool>,
    pub drop_last: Option<bool>,
    pub prefetch_factor: Option<usize>,
    pub persistent_workers: Option<bool>,
    pub return_type: Option<String>,
    pub distributed: Option<bool>,
}

/// TensorFlow settings; a parallelism of -1 leaves it to autotuning.
#[derive(Debug, Clone, Default)]
pub struct TensorFlowFrameworkConfig {
    pub batch_size: Option<usize>,
    pub shuffle_buffer_size: Option<usize>,
    pub seed: Option<u64>,
    pub num_parallel_calls: Option<i32>,
    pub prefetch_buffer_size: Option<i32>,
    pub deterministic: Option<bool>,
    pub drop_remainder: Option<bool>,
    pub reshuffle_each_iteration: Option<bool>,
    pub writable: Option<bool>,
}

#[derive(Debug, Clone, Default)]
pub struct JaxFrameworkConfig {
    pub seed: Option<u64>,
    pub writable: Option<bool>,
    pub batch_size: Option<usize>,
    pub prefetch_buffer_size: Option<usize>,
}

/// Framework settings nested under one key.
#[derive(Debug, Clone, Default)]
pub struct FrameworkProfiles {
    pub pytorch: Option<PyTorchFrameworkConfig>,
    pub tensorflow: Option<TensorFlowFrameworkConfig>,
    pub jax: Option<JaxFrameworkConfig>,
}

/// A DLIO benchmark configuration as read from JSON or YAML.
#[derive(Debug, Clone, Default)]
pub struct DlioConfig {
    pub model: Option<ModelConfig>,
    pub framework: Option<String>,
    pub workflow: Option<WorkflowConfig>,
    pub dataset: DatasetConfig,
    pub reader: ReaderConfig,
    pub checkpointing: Option<CheckpointingConfig>,
    pub profiling: Option<ProfilingConfig>,
    pub pytorch_config: Option<PyTorchFrameworkConfig>,
    pub tensorflow_config: Option<TensorFlowFrameworkConfig>,
    pub jax_config: Option<JaxFrameworkConfig>,
    pub framework_profiles: Option<FrameworkProfiles>,
}

#[derive(Debug, Clone)]
pub struct ModelPlan {
    pub name: String,
    pub model_size_bytes: Option<u64>,
    pub framework: String,
}

#[derive(Debug, Clone, Copy, PartialEq, Eq, Structural)]
pub struct WorkflowPlan {
    pub generate_data: bool,
    pub train: bool,
    pub checkpoint: bool,
    pub evaluation: bool,
}

/// Size of one split of the dataset.
#[derive(Debug, Clone, Copy, PartialEq, Eq, Structural)]
pub struct DatasetSplit {
    pub num_files: usize,
    pub num_samples_per_file: usize,
    pub record_length_bytes: usize,
    pub total_samples: usize,
    pub total_bytes: u64,
}

#[derive(Debug, Clone)]
pub struct DatasetPlan {
    pub data_folder_uri: String,
    pub format: String,
    pub train: DatasetSplit,
    pub eval: Option<DatasetSplit>,
}

/// Options of the batch data loader. A `seed` of `None` keeps the loader's
/// own default.
#[derive(Debug, Clone, Copy, PartialEq, Eq, Structural)]
pub struct LoaderSettings {
    pub batch_size: usize,
    pub prefetch: usize,
    pub shuffle: bool,
    pub num_workers: usize,
    pub seed: Option<u64>,
}

/// Options of the loader's pool of concurrent requests.
#[derive(Debug, Clone, Copy, PartialEq, Eq, Structural)]
pub struct PoolSettings {
    pub pool_size: usize,
    pub readahead_batches: usize,
    pub batch_timeout_secs: u64,
    pub max_inflight: usize,
}

#[derive(Debug, Clone, Copy, PartialEq, Eq, Structural)]
pub struct ReaderPlan {
    pub batch_size: usize,
    pub prefetch: usize,
    pub shuffle: bool,
    pub read_threads: usize,
    pub seed: Option<u64>,
    pub loader: LoaderSettings,
    pub pool: PoolSettings,
}

#[derive(Debug, Clone)]
pub struct CheckpointingPlan {
    pub enabled: bool,
    pub checkpoint_folder: Option<String>,
}

#[derive(Debug, Clone)]
pub struct ProfilingPlan {
    pub enabled: bool,
    pub profiler_type: String,
}

/// Everything a run needs, with every default filled in.
#[derive(Debug, Clone)]
pub struct RunPlan {
    pub model: ModelPlan,
    pub workflow: WorkflowPlan,
    pub dataset: DatasetPlan,
    pub reader: ReaderPlan,
    pub checkpointing: Option<CheckpointingPlan>,
    pub profiling: Option<ProfilingPlan>,
}

/// Errors of configuration conversion.
#[derive(Debug, Clone, PartialEq, Eq)]
pub enum ConfigError {
    /// The data folder names a scheme other than file, s3, az, direct.
    UnsupportedScheme(String),
}

/// An optional value, or a default.
pub open spec fn or_default<T>(o: Option<T>, d: T) -> T {
    match o {
        Some(v) => v,
        None => d,
    }
}

/// The storage kind that a data folder names: "s3", "azure", "direct",
/// "file" for a file URI or a plain path, "unknown" for other schemes.
pub open spec fn storage_kind_of(uri: Seq<char>) -> Seq<char> {
    if is_prefix_of("s3://"@, uri) {
        "s3"@
    } else if is_prefix_of("az://"@, uri) {
        "azure"@
    } else if is_prefix_of("direct://"@, uri) {
        "direct"@
    } else if is_prefix_of("file://"@, uri) || !(exists|i: int| occurs_at(uri, "://"@, i)) {
        "file"@
    } else {
        "unknown"@
    }
}

/// Scheme of a URI: what precedes its first "://".
pub open spec fn scheme_of(uri: Seq<char>, at: int) -> Seq<char> {
    uri.subrange(0, at)
}

/// Schemes that a data folder may name.
pub open spec fn supported_scheme(scheme: Seq<char>) -> bool {
    scheme == "file"@ || scheme == "s3"@ || scheme == "az"@ || scheme == "direct"@
}

/// Size of a split of `num_files` files of `samples_per_file` samples of
/// `record_bytes` bytes.
pub open spec fn split_of(num_files: usize, samples_per_file: usize, record_bytes: usize) -> DatasetSplit {
    DatasetSplit {
        num_files,
        num_samples_per_file: samples_per_file,
        record_length_bytes: record_bytes,
        total_samples: (num_files * samples_per_file) as usize,
        total_bytes: (num_files * samples_per_file * record_bytes) as u64,
    }
}

/// The split's totals fit in a `usize`.
pub open spec fn split_fits(num_files: usize, samples_per_file: usize, record_bytes: usize) -> bool {
    num_files * samples_per_file <= usize::MAX && num_files * samples_per_file * record_bytes <= usize::MAX
}

/// Computes the size of a split of the dataset.
pub fn calculate_dataset_split(num_files: usize, samples_per_file: usize, record_bytes: usize) -> (r: DatasetSplit)
    requires
        split_fits(num_files, samples_per_file, record_bytes),
    ensures
        r == split_of(num_files, samples_per_file, record_bytes),
{
    let total_samples = num_files * samples_per_file;
    let total_bytes = (total_samples * record_bytes) as u64;
    DatasetSplit {
        num_files,
        num_samples_per_file: samples_per_file,
        record_length_bytes: record_bytes,
        total_samples,
        total_bytes,
    }
}

impl DlioConfig {
    /// The value of a workflow switch, or its default.
    pub open spec fn spec_workflow_flag(&self, pick: spec_fn(WorkflowConfig) -> Option<bool>, default: bool) -> bool {
        match self.workflow {
            Some(w) => or_default(pick(w), default),
            None => default,
        }
    }

    /// Whether the data generation phase runs; off unless set.
    pub fn should_generate_data(&self) -> (r: bool)
        ensures
            r == self.spec_workflow_flag(|w: WorkflowConfig| w.generate_data, false),
    {
        match &self.workflow {
            Some(w) => match w.generate_data {
                Some(b) => b,
                None => false,
            },
            None => false,
        }
    }

    /// Whether the training phase runs; on unless set.
    pub fn should_train(&self) -> (r: bool)
        ensures
            r == self.spec_workflow_flag(|w: WorkflowConfig| w.train, true),
    {
        match &self.workflow {
            Some(w) => match w.train {
                Some(b) => b,
                None => true,
            },
            None => true,
        }
    }

    /// Whether the checkpointing phase runs; off unless set.
    pub fn should_checkpoint(&self) -> (r: bool)
        ensures
            r == self.spec_workflow_flag(|w: WorkflowConfig| w.checkpoint, false),
    {
        match &self.workflow {
            Some(w) => match w.checkpoint {
                Some(b) => b,
                None => false,
            },
            None => false,
        }
    }

    /// Whether the evaluation phase runs; off unless set.
    pub fn should_evaluate(&self) -> (r: bool)
        ensures
            r == self.spec_workflow_flag(|w: WorkflowConfig| w.evaluation, false),
    {
        match &self.workflow {
            Some(w) => match w.evaluation {
                Some(b) => b,
                None => false,
            },
            None => false,
        }
    }

    /// The PyTorch settings: the top-level ones, else those of the profiles.
    pub open spec fn spec_pytorch_config(&self) -> Option<PyTorchFrameworkConfig> {
        if self.pytorch_config is Some {
            self.pytorch_config
        } else {
            match self.framework_profiles {
                Some(fp) => fp.pytorch,
                None => None,
            }
        }
    }

    /// The TensorFlow settings: the top-level ones, else those of the profiles.
    pub open spec fn spec_tensorflow_config(&self) -> Option<TensorFlowFrameworkConfig> {
        if self.tensorflow_config is Some {
            self.tensorflow_config
        } else {
            match self.framework_profiles {
                Some(fp) => fp.tensorflow,
                None => None,
            }
        }
    }

    /// The JAX settings: the top-level ones, else those of the profiles.
    pub open spec fn spec_jax_config(&self) -> Option<JaxFrameworkConfig> {
        if self.jax_config is Some {
            self.jax_config
        } else {
            match self.framework_profiles {
                Some(fp) => fp.jax,
                None => None,
            }
        }
    }

    pub fn get_pytorch_config(&self) -> (r: Option<&PyTorchFrameworkConfig>)
        ensures
            r is Some <==> self.spec_pytorch_config() is Some,
            r is Some ==> *r->Some_0 == self.spec_pytorch_config()->Some_0,
    {
        if let Some(c) = &self.pytorch_config {
            return Some(c);
        }
        match &self.framework_profiles {
            Some(fp) => match &fp.pytorch {
                Some(c) => Some(c),
                None => None,
            },
            None => None,
        }
    }

    pub fn get_tensorflow_config(&self) -> (r: Option<&TensorFlowFrameworkConfig>)
        ensures
            r is Some <==> self.spec_tensorflow_config() is Some,
            r is Some ==> *r->Some_0 == self.spec_tensorflow_config()->Some_0,
    {
        if let Some(c) = &self.tensorflow_config {
            return Some(c);
        }
        match &self.framework_profiles {
            Some(fp) => match &fp.tensorflow {
                Some(c) => Some(c),
                None => None,
            },
            None => None,
        }
    }

    pub fn get_jax_config(&self) -> (r: Option<&JaxFrameworkConfig>)
        ensures
            r is Some <==> self.spec_jax_config() is Some,
            r is Some ==> *r->Some_0 == self.spec_jax_config()->Some_0,
    {
        if let Some(c) = &self.jax_config {
            return Some(c);
        }
        match &self.framework_profiles {
            Some(fp) => match &fp.jax {
                Some(c) => Some(c),
                None => None,
            },
            None => None,
        }
    }

    /// The framework in use: the one named, else the first of pytorch,
    /// tensorflow, jax whose settings are present.
    pub open spec fn spec_framework(&self) -> Option<Seq<char>> {
        if self.framework is Some {
            Some(self.framework->Some_0@)
        } else if self.spec_pytorch_config() is Some {
            Some("pytorch"@)
        } else if self.spec_tensorflow_config() is Some {
            Some("tensorflow"@)
        } else if self.spec_jax_config() is Some {
            Some("jax"@)
        } else {
            None
        }
    }

    pub fn detect_framework(&self) -> (r: Option<String>)
        ensures
            r is Some <==> self.spec_framework() is Some,
            r is Some ==> r->Some_0@ == self.spec_framework()->Some_0,
    {
        if let Some(fw) = &self.framework {
            return Some(fw.clone());
        }
        if self.get_pytorch_config().is_some() {
            return Some(String::from_str("pytorch"));
        }
        if self.get_tensorflow_config().is_some() {
            return Some(String::from_str("tensorflow"));
        }
        if self.get_jax_config().is_some() {
            return Some(String::from_str("jax"));
        }
        None
    }

    pub fn data_folder_uri(&self) -> (r: &str)
        ensures
            r@ == self.dataset.data_folder@,
    {
        self.dataset.data_folder.as_str()
    }

    /// The storage kind of the data folder.
    pub fn detect_storage_backend(&self) -> (r: &'static str)
        ensures
            r@ == storage_kind_of(self.dataset.data_folder@),
    {
        let uri = self.dataset.data_folder.as_str();
        if starts_with(uri, "s3://") {
            "s3"
        } else if starts_with(uri, "az://") {
            "azure"
        } else if starts_with(uri, "direct://") {
            "direct"
        } else if starts_with(uri, "file://") || find_first(uri, "://").is_none() {
            "file"
        } else {
            "unknown"
        }
    }
}

/// The first position at which "://" occurs in a URI, if any.
pub open spec fn scheme_end(uri: Seq<char>) -> Option<int> {
    if exists|i: int| occurs_at(uri, "://"@, i) {
        Some(choose|i: int| occurs_at(uri, "://"@, i) && forall|j: int| 0 <= j < i ==> !occurs_at(uri, "://"@, j))
    } else {
        None
    }
}

/// The URI that a data folder normalises to, or the unsupported scheme it
/// names. A URI with a supported scheme stays as it is; an absolute path
/// gains "file://"; a relative path is replaced by `resolved`, its absolute
/// form, behind "file://".
pub open spec fn normalized_of(data_folder: Seq<char>, resolved: Seq<char>) -> Result<Seq<char>, Seq<char>> {
    match scheme_end(data_folder) {
        Some(i) => if supported_scheme(scheme_of(data_folder, i)) {
            Ok(data_folder)
        } else {
            Err(scheme_of(data_folder, i))
        },
        None => if is_prefix_of("/"@, data_folder) {
            Ok("file://"@ + data_folder)
        } else {
            Ok("file://"@ + resolved)
        },
    }
}

/// Normalises a data folder to a URI with a scheme. `resolved` is the
/// absolute form of the folder, used only when it is a relative path.
pub fn normalize_data_folder_uri(data_folder: &str, resolved: &str) -> (r: Result<String, ConfigError>)
    ensures
        normalized_of(data_folder@, resolved@) is Ok <==> r is Ok,
        r is Ok ==> r->Ok_0@ == normalized_of(data_folder@, resolved@)->Ok_0,
        r is Err ==> r->Err_0 is UnsupportedScheme && r->Err_0->UnsupportedScheme_0@ == normalized_of(data_folder@, resolved@)->Err_0,
{
    match find_first(data_folder, "://") {
        Some(i) => {
            proof {
                let k = choose|k: int| occurs_at(data_folder@, "://"@, k) && forall|j: int| 0 <= j < k ==> !occurs_at(data_folder@, "://"@, j);
                assert(occurs_at(data_folder@, "://"@, i as int));
                assert(k == i as int) by {
                    if k < i as int {
                    } else if k > i as int {
                    }
                }
            }
            let scheme = data_folder.substring_char(0, i);
            if str_eq(scheme, "file") || str_eq(scheme, "s3") || str_eq(scheme, "az") || str_eq(scheme, "direct") {
                Ok(String::from_str(data_folder))
            } else {
                Err(ConfigError::UnsupportedScheme(String::from_str(scheme)))
            }
        },
        None => {
            let mut uri = String::from_str("file://");
            if starts_with(data_folder, "/") {
                uri.append(data_folder);
            } else {
                uri.append(resolved);
            }
            Ok(uri)
        },
    }
}

impl DlioConfig {
    /// Loader options from the reader section: batches of 1, prefetch 4,
    /// no shuffle and 1 worker unless set.
    pub open spec fn spec_loader_options(&self) -> LoaderSettings {
        LoaderSettings {
            batch_size: or_default(self.reader.batch_size, 1),
            prefetch: or_default(self.reader.prefetch, 4),
            shuffle: or_default(self.reader.shuffle, false),
            num_workers: or_default(self.reader.read_threads, 1),
            seed: None,
        }
    }

    pub fn to_loader_options(&self) -> (r: LoaderSettings)
        ensures
            r == self.spec_loader_options(),
    {
        LoaderSettings {
            batch_size: match self.reader.batch_size {
                Some(v) => v,
                None => 1,
            },
            prefetch: match self.reader.prefetch {
                Some(v) => v,
                None => 4,
            },
            shuffle: match self.reader.shuffle {
                Some(v) => v,
                None => false,
            },
            num_workers: match self.reader.read_threads {
                Some(v) => v,
                None => 1,
            },
            seed: None,
        }
    }

    /// The pool size fits in a `usize`.
    pub open spec fn pool_fits(&self) -> bool {
        or_default(self.reader.read_threads, 4) * 4 <= usize::MAX
    }

    /// Pool options: four requests per read thread (4 threads unless set),
    /// read-ahead of the prefetch depth (8 unless set), a 10 s batch
    /// timeout and at most 64 requests in flight.
    pub open spec fn spec_pool_config(&self) -> PoolSettings {
        PoolSettings {
            pool_size: (or_default(self.reader.read_threads, 4) * 4) as usize,
            readahead_batches: or_default(self.reader.prefetch, 8),
            batch_timeout_secs: 10,
            max_inflight: 64,
        }
    }

    pub fn to_pool_config(&self) -> (r: PoolSettings)
        requires
            self.pool_fits(),
        ensures
            r == self.spec_pool_config(),
    {
        let threads = match self.reader.read_threads {
            Some(v) => v,
            None => 4,
        };
        PoolSettings {
            pool_size: threads * 4,
            readahead_batches: match self.reader.prefetch {
                Some(v) => v,
                None => 8,
            },
            batch_timeout_secs: 10,
            max_inflight: 64,
        }
    }

    /// Loader options with the PyTorch settings laid over them.
    pub open spec fn spec_pytorch_loader_options(&self) -> LoaderSettings {
        let base = self.spec_loader_options();
        match self.spec_pytorch_config() {
            Some(p) => LoaderSettings {
                batch_size: or_default(p.batch_size, base.batch_size),
                shuffle: or_default(p.shuffle, base.shuffle),
                seed: if p.seed is Some { p.seed } else { base.seed },
                prefetch: or_default(p.prefetch_factor, base.prefetch),
                num_workers: base.num_workers,
            },
            None => base,
        }
    }

    pub fn to_pytorch_loader_options(&self) -> (r: LoaderSettings)
        ensures
            r == self.spec_pytorch_loader_options(),
    {
        let mut opts = self.to_loader_options();
        if let Some(p) = self.get_pytorch_config() {
            if let Some(b) = p.batch_size {
                opts.batch_size = b;
            }
            if let Some(sh) = p.shuffle {
                opts.shuffle = sh;
            }
            if let Some(seed) = p.seed {
                opts.seed = Some(seed);
            }
            if let Some(pf) = p.prefetch_factor {
                opts.prefetch = pf;
            }
        }
        opts
    }

    /// Loader options with the TensorFlow settings laid over them; the
    /// loader does not shuffle when TensorFlow settings are present.
    pub open spec fn spec_tensorflow_loader_options(&self) -> LoaderSettings {
        let base = self.spec_loader_options();
        match self.spec_tensorflow_config() {
            Some(t) => LoaderSettings {
                batch_size: or_default(t.batch_size, base.batch_size),
                seed: if t.seed is Some { t.seed } else { base.seed },
                shuffle: false,
                prefetch: base.prefetch,
                num_workers: base.num_workers,
            },
            None => base,
        }
    }

    pub fn to_tensorflow_loader_options(&self) -> (r: LoaderSettings)
        ensures
            r == self.spec_tensorflow_loader_options(),
    {
        let mut opts = self.to_loader_options();
        if let Some(t) = self.get_tensorflow_config() {
            if let Some(b) = t.batch_size {
                opts.batch_size = b;
            }
            if let Some(seed) = t.seed {
                opts.seed = Some(seed);
            }
            opts.shuffle = false;
        }
        opts
    }

    /// Samples per file and record length, 1 and 1024 unless set.
    pub open spec fn spec_samples_per_file(&self) -> usize {
        or_default(self.dataset.num_samples_per_file, 1)
    }

    pub open spec fn spec_record_length(&self) -> usize {
        or_default(self.dataset.record_length_bytes, 1024)
    }

    /// The dataset's splits and pool fit the machine's integers.
    pub open spec fn plan_fits(&self) -> bool {
        &&& split_fits(or_default(self.dataset.num_files_train, 1), self.spec_samples_per_file(), self.spec_record_length())
        &&& (self.dataset.num_files_eval is Some ==> split_fits(
            self.dataset.num_files_eval->Some_0,
            self.spec_samples_per_file(),
            self.spec_record_length(),
        ))
        &&& self.pool_fits()
    }

    /// The model name, "dlio_workload" unless set.
    pub open spec fn spec_model_name(&self) -> Seq<char> {
        match self.model {
            Some(m) => match m.name {
                Some(n) => n@,
                None => "dlio_workload"@,
            },
            None => "dlio_workload"@,
        }
    }

    /// The framework named at the top level, else by the model, else "unknown".
    pub open spec fn spec_plan_framework(&self) -> Seq<char> {
        match self.framework {
            Some(f) => f@,
            None => match self.model {
                Some(m) => match m.framework {
                    Some(f) => f@,
                    None => "unknown"@,
                },
                None => "unknown"@,
            },
        }
    }

    /// Converts the configuration into a run plan, filling in defaults.
    /// `resolved` is the absolute form of the data folder, used only when
    /// that is a relative path. Fails when the data folder names an
    /// unsupported scheme.
    pub fn to_run_plan(&self, resolved: &str) -> (r: Result<RunPlan, ConfigError>)
        requires
            self.plan_fits(),
        ensures
            r is Ok <==> normalized_of(self.dataset.data_folder@, resolved@) is Ok,
            r is Err ==> r->Err_0 is UnsupportedScheme && r->Err_0->UnsupportedScheme_0@ == normalized_of(self.dataset.data_folder@, resolved@)->Err_0,
            r is Ok ==> ({
                let p = r->Ok_0;
                &&& p.model.name@ == self.spec_model_name()
                &&& p.model.model_size_bytes == match self.model {
                    Some(m) => m.model_size,
                    None => None,
                }
                &&& p.model.framework@ == self.spec_plan_framework()
                &&& p.workflow == (WorkflowPlan {
                    generate_data: self.spec_workflow_flag(|w: WorkflowConfig| w.generate_data, false),
                    train: self.spec_workflow_flag(|w: WorkflowConfig| w.train, true),
                    checkpoint: self.spec_workflow_flag(|w: WorkflowConfig| w.checkpoint, false),
                    evaluation: self.spec_workflow_flag(|w: WorkflowConfig| w.evaluation, false),
                })
                &&& p.dataset.data_folder_uri@ == normalized_of(self.dataset.data_folder@, resolved@)->Ok_0
                &&& p.dataset.format@ == match self.dataset.format {
                    Some(f) => f@,
                    None => "npz"@,
                }
                &&& p.dataset.train == split_of(or_default(self.dataset.num_files_train, 1), self.spec_samples_per_file(), self.spec_record_length())
                &&& p.dataset.eval == match self.dataset.num_files_eval {
                    Some(n) => Some(split_of(n, self.spec_samples_per_file(), self.spec_record_length())),
                    None => None,
                }
                &&& p.reader == (ReaderPlan {
                    batch_size: or_default(self.reader.batch_size, 1),
                    prefetch: or_default(self.reader.prefetch, 4),
                    shuffle: or_default(self.reader.shuffle, false),
                    read_threads: or_default(self.reader.read_threads, 1),
                    seed: self.reader.seed,
                    loader: self.spec_loader_options(),
                    pool: self.spec_pool_config(),
                })
                &&& p.checkpointing is Some <==> self.checkpointing is Some
                &&& p.checkpointing is Some ==> p.checkpointing->Some_0.enabled == (or_default(self.checkpointing->Some_0.checkpoint_after_epoch, 0) > 0)
                    && p.checkpointing->Some_0.checkpoint_folder == self.checkpointing->Some_0.checkpoint_folder
                &&& p.profiling is Some <==> self.profiling is Some
                &&& p.profiling is Some ==> p.profiling->Some_0.enabled && p.profiling->Some_0.profiler_type@ == match self.profiling->Some_0.profiler {
                    Some(t) => t@,
                    None => "none"@,
                }
            }),
    {
        let data_folder_uri = match normalize_data_folder_uri(self.dataset.data_folder.as_str(), resolved) {
            Ok(u) => u,
            Err(e) => return Err(e),
        };
        let spf = match self.dataset.num_samples_per_file {
            Some(v) => v,
            None => 1,
        };
        let rlen = match self.dataset.record_length_bytes {
            Some(v) => v,
            None => 1024,
        };
        let nft = match self.dataset.num_files_train {
            Some(v) => v,
            None => 1,
        };
        let train = calculate_dataset_split(nft, spf, rlen);
        let eval = match self.dataset.num_files_eval {
            Some(n) => Some(calculate_dataset_split(n, spf, rlen)),
            None => None,
        };
        let name = match &self.model {
            Some(m) => match &m.name {
                Some(n) => n.clone(),
                None => String::from_str("dlio_workload"),
            },
            None => String::from_str("dlio_workload"),
        };
        let model_size_bytes = match &self.model {
            Some(m) => m.model_size,
            None => None,
        };
        let framework = match &self.framework {
            Some(f) => f.clone(),
            None => match &self.model {
                Some(m) => match &m.framework {
                    Some(f) => f.clone(),
                    None => String::from_str("unknown"),
                },
                None => String::from_str("unknown"),
            },
        };
        let format = match &self.dataset.format {
            Some(f) => f.clone(),
            None => String::from_str("npz"),
        };
        let checkpointing = match &self.checkpointing {
            Some(c) => {
                let after = match c.checkpoint_after_epoch {
                    Some(v) => v,
                    None => 0,
                };
                let folder = match &c.checkpoint_folder {
                    Some(f) => Some(f.clone()),
                    None => None,
                };
                Some(CheckpointingPlan { enabled: after > 0, checkpoint_folder: folder })
            },
            None => None,
        };
        let profiling = match &self.profiling {
            Some(p) => {
                let t = match &p.profiler {
                    Some(t) => t.clone(),
                    None => String::from_str("none"),
                };
                Some(ProfilingPlan { enabled: true, profiler_type: t })
            },
            None => None,
        };
        let reader = ReaderPlan {
            batch_size: match self.reader.batch_size {
                Some(v) => v,
                None => 1,
            },
            prefetch: match self.reader.prefetch {
                Some(v) => v,
                None => 4,
            },
            shuffle: match self.reader.shuffle {
                Some(v) => v,
                None => false,
            },
            read_threads: match self.reader.read_threads {
                Some(v) => v,
                None => 1,
            },
            seed: self.reader.seed,
            loader: self.to_loader_options(),
            pool: self.to_pool_config(),
        };
        Ok(
            RunPlan {
                model: ModelPlan { name, model_size_bytes, framework },
                workflow: WorkflowPlan {
                    generate_data: self.should_generate_data(),
                    train: self.should_train(),
                    checkpoint: self.should_checkpoint(),
                    evaluation: self.should_evaluate(),
                },
                dataset: DatasetPlan { data_folder_uri, format, train, eval },
                reader,
                checkpointing,
                profiling,
            },
        )
    }
}

} // verus!
