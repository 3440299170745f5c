use dl_driver::framework::{
    detect_format, validate_data_folder, validate_frameworks, FormatType, FrameworkError, PyTorchConfig,
    PyTorchDataLoader, TensorFlowConfig,
};

#[test]
fn test_pytorch_config_validation() {
    let pytorch_config = PyTorchConfig::default();
    assert!(validate_frameworks(&Some(pytorch_config.clone()), &None).is_ok());

    let mut invalid_pytorch_config = pytorch_config.clone();
    invalid_pytorch_config.batch_size = 0;
    assert!(validate_frameworks(&Some(invalid_pytorch_config), &None).is_err());

    let mut invalid_pytorch_config2 = pytorch_config;
    invalid_pytorch_config2.prefetch_factor = Some(0);
    assert!(validate_frameworks(&Some(invalid_pytorch_config2), &None).is_err());
}

#[test]
fn framework_validation_errors() {
    assert_eq!(validate_frameworks(&None, &None), Err(FrameworkError::NoFramework));
    let tf = TensorFlowConfig { batch_size: 0, ..TensorFlowConfig::default() };
    assert_eq!(validate_frameworks(&None, &Some(tf)), Err(FrameworkError::TensorFlowBatchSizeZero));
    assert_eq!(validate_frameworks(&None, &Some(TensorFlowConfig::default())), Ok(()));
    let pt = PyTorchConfig { batch_size: 0, prefetch_factor: Some(0), ..PyTorchConfig::default() };
    assert_eq!(validate_frameworks(&Some(pt), &None), Err(FrameworkError::PyTorchBatchSizeZero));
    let pt = PyTorchConfig { prefetch_factor: Some(0), ..PyTorchConfig::default() };
    assert_eq!(validate_frameworks(&Some(pt), &None), Err(FrameworkError::PyTorchPrefetchFactorZero));
}

#[test]
fn config_defaults() {
    let p = PyTorchConfig::default();
    assert_eq!(p.batch_size, 32);
    assert_eq!(p.num_workers, 4);
    assert!(p.shuffle);
    assert_eq!(p.seed, Some(42));
    assert_eq!(p.prefetch_factor, Some(2));
    let t = TensorFlowConfig::default();
    assert_eq!(t.shuffle_buffer_size, Some(1000));
    assert_eq!(t.num_parallel_calls, None);
    assert!(t.deterministic);
}

#[test]
fn test_pytorch_dataloader_config_conversion() {
    let pytorch_config = PyTorchConfig { batch_size: 64, shuffle: true, seed: Some(42), ..PyTorchConfig::default() };
    let dataloader =
        PyTorchDataLoader::from_dataset_format("npz", pytorch_config.clone(), "file:///tmp/test_data".to_string())
            .unwrap();
    let retrieved_pytorch_config = dataloader.pytorch_config();
    assert_eq!(retrieved_pytorch_config.batch_size, 64);
    assert_eq!(retrieved_pytorch_config.shuffle, true);
    assert_eq!(retrieved_pytorch_config.seed, Some(42));
}

#[test]
fn test_pytorch_format_detection() {
    let dataloader =
        PyTorchDataLoader::from_dataset_format("npz", PyTorchConfig::default(), "file:///tmp/test.npz".to_string())
            .unwrap();
    assert_eq!(dataloader.data_folder(), "file:///tmp/test.npz");
    assert_eq!(*dataloader.format_type(), FormatType::Npz);
}

#[test]
fn test_pytorch_epoch_management() {
    let mut dataloader =
        PyTorchDataLoader::from_dataset_format("npz", PyTorchConfig::default(), "file:///tmp/test".to_string())
            .unwrap();
    assert_eq!(dataloader.current_epoch(), 0);
    let next = dataloader.next_epoch();
    assert_eq!(next, 1);
    assert_eq!(dataloader.current_epoch(), 1);
    dataloader.reset_epoch();
    assert_eq!(dataloader.current_epoch(), 0);
}

#[test]
fn test_seed_state_management() {
    let pytorch_config = PyTorchConfig { seed: Some(123), ..PyTorchConfig::default() };
    let mut dataloader =
        PyTorchDataLoader::from_dataset_format("npz", pytorch_config, "file:///tmp/test".to_string()).unwrap();
    assert_eq!(dataloader.seed_state(), Some(123));
    dataloader.update_seed_state(Some(456));
    assert_eq!(dataloader.seed_state(), Some(456));
    dataloader.update_seed_state(None);
    assert_eq!(dataloader.seed_state(), None);
}

#[test]
fn loader_rejects_unknown_format_and_scheme() {
    assert_eq!(detect_format("hdf5"), Ok(FormatType::Hdf5));
    assert_eq!(detect_format("tfrecord"), Ok(FormatType::TfRecord));
    assert_eq!(detect_format("csv"), Err(FrameworkError::UnsupportedFormat("csv".to_string())));
    assert!(validate_data_folder("az://a/b").is_ok());
    assert!(validate_data_folder("direct:///mnt").is_ok());
    assert_eq!(
        validate_data_folder("/tmp/x"),
        Err(FrameworkError::UnsupportedDataFolder("/tmp/x".to_string()))
    );
    let r = PyTorchDataLoader::from_dataset_format("csv", PyTorchConfig::default(), "/tmp".to_string());
    assert!(matches!(r, Err(FrameworkError::UnsupportedFormat(_))));
    let r = PyTorchDataLoader::from_dataset_format("npz", PyTorchConfig::default(), "/tmp".to_string());
    assert!(matches!(r, Err(FrameworkError::UnsupportedDataFolder(_))));
}
