use dl_driver::dataset::DatasetMetadata;
use dl_driver::dlio_config::{
    calculate_dataset_split, normalize_data_folder_uri, ConfigError, DatasetConfig, DlioConfig,
    FrameworkProfiles, ModelConfig, PyTorchFrameworkConfig, ReaderConfig, TensorFlowFrameworkConfig,
    WorkflowConfig,
};

fn with_folder(folder: &str) -> DlioConfig {
    DlioConfig {
        dataset: DatasetConfig { data_folder: folder.to_string(), ..Default::default() },
        ..Default::default()
    }
}

#[test]
fn dlio_compat_test_backend_detection() {
    let test_cases = [
        ("file:///tmp/data", "file"),
        ("s3://bucket/path", "s3"),
        ("az://account/container/path", "azure"),
        ("direct:///mnt/nvme/data", "direct"),
        ("/local/path", "file"),
    ];
    for (uri, expected_backend) in test_cases {
        let config = with_folder(uri);
        assert_eq!(config.detect_storage_backend(), expected_backend, "Failed for URI: {}", uri);
    }
    assert_eq!(with_folder("gs://bucket").detect_storage_backend(), "unknown");
}

#[test]
fn dlio_compat_test_loader_options_conversion() {
    let config = DlioConfig {
        dataset: DatasetConfig { data_folder: "/test".to_string(), ..Default::default() },
        reader: ReaderConfig {
            batch_size: Some(8),
            prefetch: Some(16),
            shuffle: Some(true),
            read_threads: Some(6),
            ..Default::default()
        },
        ..Default::default()
    };
    let loader_opts = config.to_loader_options();
    assert_eq!(loader_opts.batch_size, 8);
    assert_eq!(loader_opts.prefetch, 16);
    assert_eq!(loader_opts.shuffle, true);
    assert_eq!(loader_opts.num_workers, 6);
    let pool = config.to_pool_config();
    assert_eq!(pool.pool_size, 24);
    assert_eq!(pool.readahead_batches, 16);
    assert_eq!(pool.batch_timeout_secs, 10);
    assert_eq!(pool.max_inflight, 64);
}

#[test]
fn dlio_compat_test_framework_profiles() {
    let config = DlioConfig {
        framework: Some("pytorch".to_string()),
        dataset: DatasetConfig { data_folder: "/test".to_string(), ..Default::default() },
        framework_profiles: Some(FrameworkProfiles {
            pytorch: Some(PyTorchFrameworkConfig {
                num_workers: Some(4),
                pin_memory: Some(true),
                persistent_workers: Some(true),
                prefetch_factor: Some(3),
                drop_last: Some(false),
                ..Default::default()
            }),
            tensorflow: None,
            jax: None,
        }),
        ..Default::default()
    };
    assert_eq!(config.framework.as_deref(), Some("pytorch"));
    let pytorch_config = config.get_pytorch_config();
    assert!(pytorch_config.is_some());
    let pytorch = pytorch_config.unwrap();
    assert_eq!(pytorch.num_workers, Some(4));
    assert_eq!(pytorch.pin_memory, Some(true));
    assert_eq!(pytorch.persistent_workers, Some(true));
    assert_eq!(pytorch.prefetch_factor, Some(3));
    assert_eq!(pytorch.drop_last, Some(false));
    assert_eq!(config.to_pytorch_loader_options().prefetch, 3);
}

#[test]
fn dlio_compat_test_run_plan_conversion() {
    let config = DlioConfig {
        model: Some(ModelConfig { name: Some("test_model".to_string()), model_size: Some(500000000), framework: None }),
        framework: Some("pytorch".to_string()),
        workflow: Some(WorkflowConfig { generate_data: Some(true), train: Some(true), checkpoint: Some(true), evaluation: None }),
        dataset: DatasetConfig {
            data_folder: "file:///mnt/vast1/test_data".to_string(),
            format: Some("npz".to_string()),
            num_files_train: Some(100),
            num_samples_per_file: Some(64),
            record_length_bytes: Some(8192),
            ..Default::default()
        },
        reader: ReaderConfig {
            batch_size: Some(16),
            prefetch: Some(4),
            shuffle: Some(true),
            read_threads: Some(8),
            ..Default::default()
        },
        ..Default::default()
    };
    let run_plan = config.to_run_plan("/unused").expect("Should convert to RunPlan");
    assert_eq!(run_plan.model.name, "test_model");
    assert_eq!(run_plan.model.framework, "pytorch");
    assert!(run_plan.workflow.generate_data);
    assert!(run_plan.workflow.train);
    assert!(run_plan.workflow.checkpoint);
    assert_eq!(run_plan.dataset.data_folder_uri, "file:///mnt/vast1/test_data");
    assert_eq!(run_plan.dataset.format, "npz");
    assert_eq!(run_plan.dataset.train.num_files, 100);
    assert_eq!(run_plan.dataset.train.num_samples_per_file, 64);
    assert_eq!(run_plan.reader.batch_size, 16);
    assert_eq!(run_plan.reader.prefetch, 4);
    assert!(run_plan.reader.shuffle);
    assert_eq!(run_plan.dataset.train.total_samples, 6400);
    assert_eq!(run_plan.dataset.train.total_bytes, 6400 * 8192);
    assert_eq!(run_plan.reader.pool.pool_size, 32);
}

#[test]
fn run_plan_defaults() {
    let plan = with_folder("/data/set").to_run_plan("/unused").unwrap();
    assert_eq!(plan.model.name, "dlio_workload");
    assert_eq!(plan.model.framework, "unknown");
    assert_eq!(plan.dataset.data_folder_uri, "file:///data/set");
    assert_eq!(plan.dataset.format, "npz");
    assert_eq!(plan.dataset.train.num_files, 1);
    assert_eq!(plan.dataset.train.record_length_bytes, 1024);
    assert!(plan.dataset.eval.is_none());
    assert!(plan.workflow.train);
    assert!(!plan.workflow.generate_data);
    assert_eq!(plan.reader.batch_size, 1);
    assert_eq!(plan.reader.read_threads, 1);
    assert_eq!(plan.reader.pool.pool_size, 16);
    assert_eq!(plan.reader.pool.readahead_batches, 8);
    assert!(plan.checkpointing.is_none());
    let bad = with_folder("gs://bucket/x").to_run_plan("/unused");
    assert_eq!(bad.err(), Some(ConfigError::UnsupportedScheme("gs".to_string())));
}

#[test]
fn dlio_compat_test_data_folder_uri_normalization() {
    let test_cases = [
        ("file:///tmp/data", "file:///tmp/data"),
        ("s3://bucket/key", "s3://bucket/key"),
        ("az://account/container", "az://account/container"),
    ];
    for (input, expected) in test_cases {
        let config = with_folder(input);
        assert_eq!(config.data_folder_uri(), expected, "Failed to normalize: {}", input);
        assert_eq!(normalize_data_folder_uri(input, "/unused").unwrap(), expected);
    }
    assert_eq!(normalize_data_folder_uri("rel/dir", "/home/u/rel/dir").unwrap(), "file:///home/u/rel/dir");
    assert_eq!(normalize_data_folder_uri("/abs", "/ignored").unwrap(), "file:///abs");
}

#[test]
fn workflow_and_framework_detection() {
    let mut config = with_folder("/x");
    assert!(config.should_train());
    assert!(!config.should_evaluate());
    assert!(!config.should_checkpoint());
    assert_eq!(config.detect_framework(), None);
    config.tensorflow_config = Some(TensorFlowFrameworkConfig { batch_size: Some(5), seed: Some(9), ..Default::default() });
    assert_eq!(config.detect_framework(), Some("tensorflow".to_string()));
    let tf = config.to_tensorflow_loader_options();
    assert_eq!(tf.batch_size, 5);
    assert_eq!(tf.seed, Some(9));
    assert!(!tf.shuffle);
    config.workflow = Some(WorkflowConfig { evaluation: Some(true), train: Some(false), ..Default::default() });
    assert!(config.should_evaluate());
    assert!(!config.should_train());
    let split = calculate_dataset_split(3, 4, 10);
    assert_eq!(split.total_samples, 12);
    assert_eq!(split.total_bytes, 120);
}

#[test]
fn dataset_metadata_from_plan_and_uri() {
    let config = DlioConfig {
        dataset: DatasetConfig {
            data_folder: "s3://bucket/train".to_string(),
            num_files_train: Some(4),
            num_samples_per_file: Some(2),
            record_length_bytes: Some(100),
            ..Default::default()
        },
        ..Default::default()
    };
    let plan = config.to_run_plan("/unused").unwrap();
    let m = DatasetMetadata::from_run_plan(&plan);
    assert_eq!((m.total_files, m.total_samples, m.total_bytes), (4, 8, 800));
    assert_eq!(m.format, "npz");
    assert_eq!(m.backend, "S3");
    let u = DatasetMetadata::from_uri("file:///x");
    assert_eq!(u.backend, "File");
    assert_eq!(u.format, "unknown");
    assert_eq!(u.total_files, 0);
}
