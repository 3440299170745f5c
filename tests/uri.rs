use dl_driver::uri::{
    backend_from_uri, detect_backend_from_uri, find_first, normalize_uri, starts_with, storage_backend,
    StorageBackend,
};

#[test]
fn test_config_functionality() {
    let s3_path = "s3://bucket/path";
    let azure_path = "az://container/path";
    let file_path = "/local/path";

    assert!(s3_path.starts_with("s3://"));
    assert!(azure_path.starts_with("az://"));
    assert!(!file_path.starts_with("s3://"));

    assert!(starts_with(s3_path, "s3://"));
    assert!(starts_with(azure_path, "az://"));
    assert!(!starts_with(file_path, "s3://"));
}

#[test]
fn mod_test_backend_detection() {
    assert_eq!(backend_from_uri("file:///tmp/test"), "file");
    assert_eq!(backend_from_uri("s3://bucket/path"), "s3");
    assert_eq!(backend_from_uri("az://account/container"), "azure");
    assert_eq!(backend_from_uri("directio:///tmp/direct"), "directio");
    assert_eq!(backend_from_uri("direct:///tmp/direct"), "directio");
}

#[test]
fn dlio_config_test_storage_backend_detection() {
    let test_cases = vec![
        ("file:///tmp/test", StorageBackend::File),
        ("s3://bucket/path", StorageBackend::S3),
        ("az://account/container/path", StorageBackend::Azure),
        ("direct:///tmp/direct", StorageBackend::DirectIO),
        ("directio:///tmp/direct", StorageBackend::DirectIO),
    ];
    for (uri, expected) in test_cases {
        assert_eq!(storage_backend(uri), expected, "Backend detection mismatch for URI: {}", uri);
    }
}

#[test]
fn reader_backend_names() {
    assert_eq!(detect_backend_from_uri("file:///data"), "File");
    assert_eq!(detect_backend_from_uri("s3://b/k"), "S3");
    assert_eq!(detect_backend_from_uri("az://a/c"), "Azure");
    assert_eq!(detect_backend_from_uri("direct:///mnt"), "DirectIO");
    assert_eq!(detect_backend_from_uri("/plain/path"), "Unknown");
}

#[test]
fn normalize_keeps_uris() {
    assert_eq!(normalize_uri("file:///abs/path"), "file:///abs/path");
    assert_eq!(normalize_uri("file://rel"), "file://rel");
    assert_eq!(normalize_uri("s3://b"), "s3://b");
}

#[test]
fn find_first_positions() {
    assert_eq!(find_first("s3://a://b", "://"), Some(2));
    assert_eq!(find_first("/plain", "://"), None);
    assert_eq!(find_first("", ""), Some(0));
    assert_eq!(find_first("ab", "abc"), None);
}
