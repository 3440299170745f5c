use dl_driver::checkpoint::Checkpoint;
use dl_driver::config::{Dataset, DlioConfig, Model, Reader, Workflow};
use dl_driver::plan::RunPlan;
use dl_driver::uri::StorageBackend;

#[test]
fn test_run_plan_from_config() {
    let cfg = DlioConfig {
        model: Some(Model { name: Some("test".to_string()), model_size: None }),
        framework: Some("pytorch".to_string()),
        workflow: Some(Workflow { train: Some(true), ..Default::default() }),
        dataset: Dataset {
            data_folder: "s3://test-bucket/data".to_string(),
            format: "npz".to_string(),
            num_files_train: Some(100),
            num_files_eval: None,
            record_length_bytes: Some(1024),
            num_samples_per_file: Some(10),
            compression: None,
        },
        reader: Reader {
            batch_size: Some(32),
            prefetch: Some(8),
            shuffle: Some(true),
            read_threads: Some(4),
            compute_threads: None,
            drop_last: Some(true),
            seed: Some(42),
            data_loader: None,
        },
        checkpoint: None,
    };

    let plan = RunPlan::from_config(&cfg);

    assert_eq!(plan.uri, "s3://test-bucket/data");
    assert_eq!(plan.format, "npz");
    assert_eq!(plan.batch_size, 32);
    assert_eq!(plan.prefetch, 8);
    assert_eq!(plan.shuffle, true);
    assert_eq!(plan.read_threads, 4);
    assert_eq!(plan.drop_last, true);
    assert_eq!(plan.seed, Some(42));
    assert_eq!(plan.num_files_train, Some(100));
    assert_eq!(cfg.storage_backend(), StorageBackend::S3);
    assert!(cfg.should_train());
    assert!(!cfg.should_generate_data());
    assert_eq!(cfg.to_run_plan().unwrap().batch_size, 32);
}

#[test]
fn mod_test_loader_options_conversion() {
    let plan = RunPlan { batch_size: 16, prefetch: 6, shuffle: true, read_threads: 2, seed: Some(123), ..Default::default() };

    let opts = plan.to_loader_options();
    assert_eq!(opts.batch_size, 16);
    assert_eq!(opts.prefetch, 6);
    assert_eq!(opts.shuffle, true);
    assert_eq!(opts.num_workers, 2);
    assert_eq!(opts.seed, Some(123));
}

#[test]
fn plan_defaults_and_pool() {
    let plan = RunPlan::default();
    assert_eq!(plan.uri, "file:///tmp/default");
    assert_eq!(plan.prefetch, 4);
    assert_eq!(plan.to_pool_config().readahead_batches, 4);
    let small = RunPlan { prefetch: 1, ..Default::default() };
    assert_eq!(small.to_pool_config().readahead_batches, 2);
    assert_eq!(small.to_pool_config().pool_size, 16);
    assert_eq!(small.to_loader_options().seed, Some(0));
}

#[test]
fn compact_config_defaults() {
    let cfg = DlioConfig {
        dataset: Dataset { data_folder: "/data".to_string(), format: "npz".to_string(), ..Default::default() },
        checkpoint: Some(Checkpoint { enabled: Some(true), ..Default::default() }),
        ..Default::default()
    };
    assert!(!cfg.should_train());
    assert!(!cfg.should_checkpoint());
    assert_eq!(cfg.storage_backend(), StorageBackend::File);
    assert_eq!(cfg.data_folder_uri(), "/data");
    let opts = cfg.to_loader_options();
    assert_eq!((opts.batch_size, opts.prefetch, opts.num_workers, opts.seed), (1, 1, 1, Some(0)));
}
