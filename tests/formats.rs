use dl_driver::formats::{DataFormat, FormatError, FormatFactory, Hdf5Format, NpzFormat, NpzStreamingFormat};

#[test]
fn factory_defaults() {
    match FormatFactory::create_format("NPZ", None, None, None).unwrap() {
        DataFormat::Npz(n) => {
            assert_eq!(n.shape(), &vec![224, 224, 3]);
            assert_eq!(n.num_arrays(), 3);
        }
        _ => panic!("expected npz"),
    }
    match FormatFactory::create_format("hdf5", Some(vec![8, 8]), None, None).unwrap() {
        DataFormat::Hdf5(h) => {
            assert_eq!(h.shape(), &vec![8, 8]);
            assert_eq!(h.dataset_name(), "data");
        }
        _ => panic!("expected hdf5"),
    }
    match FormatFactory::create_format("TfRecord", None, Some(256), None).unwrap() {
        DataFormat::TfRecord(t) => {
            assert_eq!(t.num_records(), 100);
            assert_eq!(t.target_record_size(), 256);
        }
        _ => panic!("expected tfrecord"),
    }
    assert_eq!(
        FormatFactory::create_format("parquet", None, None, None).err(),
        Some(FormatError::UnsupportedFormat("parquet".to_string()))
    );
    assert_eq!(FormatFactory::supported_formats(), vec!["npz", "hdf5", "tfrecord"]);
}

#[test]
fn format_constructors() {
    assert_eq!(NpzFormat::new(vec![2], 0).num_arrays(), 1);
    assert_eq!(NpzStreamingFormat::new(vec![2, 3], 5).num_arrays(), 5);
    assert_eq!(NpzStreamingFormat::new(vec![2, 3], 5).shape(), &vec![2, 3]);
    assert_eq!(Hdf5Format::new(vec![4], Some("images".to_string())).dataset_name(), "images");
}
