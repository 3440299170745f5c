use dl_driver::checkpoint::{Checkpoint, CheckpointPlugin};

#[test]
fn test_checkpoint_plugin_creation() {
    let data_folder = "file:///tmp/ckpt_data";
    let plugin = CheckpointPlugin::new(&None, data_folder, "run-1".to_string());
    assert!(plugin.is_none());

    let checkpoint = Some(Checkpoint {
        enabled: Some(true),
        uri: None,
        steps_between_checkpoints: Some(50),
        compression: Some("zstd".to_string()),
        compression_level: Some(5),
    });
    let plugin = CheckpointPlugin::new(&checkpoint, data_folder, "run-1".to_string());
    assert!(plugin.is_some());
    let plugin = plugin.unwrap();
    assert_eq!(plugin.step_interval(), 50);
    assert!(plugin.compression_enabled());
    assert!(!plugin.run_id.is_empty());
    assert_eq!(plugin.compression_level(), 5);
    assert_eq!(plugin.base_uri, data_folder);
    assert_eq!(plugin.checkpoint_uri(data_folder), data_folder);
}

#[test]
fn test_checkpoint_interval_logic() {
    let checkpoint = Some(Checkpoint {
        enabled: Some(true),
        uri: None,
        steps_between_checkpoints: Some(10),
        compression: None,
        compression_level: None,
    });
    let plugin = CheckpointPlugin::new(&checkpoint, "file:///tmp/x", "r".to_string()).unwrap();

    assert!(!plugin.should_checkpoint(5));
    assert!(plugin.should_checkpoint(10));
    assert!(plugin.should_checkpoint(15));

    let mut plugin = plugin;
    assert_eq!(plugin.next_checkpoint_step, 10);
    plugin.update_next_checkpoint(10);
    assert_eq!(plugin.next_checkpoint_step, 20);
    plugin.update_next_checkpoint(15);
    assert_eq!(plugin.next_checkpoint_step, 20);
}

#[test]
fn checkpoint_disabled_cases_and_defaults() {
    let off = Some(Checkpoint { enabled: Some(false), ..Default::default() });
    assert!(CheckpointPlugin::new(&off, "/d", "r".to_string()).is_none());
    let zero = Some(Checkpoint { enabled: Some(true), steps_between_checkpoints: Some(0), ..Default::default() });
    assert!(CheckpointPlugin::new(&zero, "/d", "r".to_string()).is_none());
    let dflt = Some(Checkpoint { enabled: Some(true), uri: Some("s3://b/ck".to_string()), ..Default::default() });
    let mut p = CheckpointPlugin::new(&dflt, "/d", "r".to_string()).unwrap();
    assert_eq!(p.step_interval(), 100);
    assert_eq!(p.compression_level(), 3);
    assert!(!p.compression_enabled());
    assert_eq!(p.base_uri, "s3://b/ck");
    assert_eq!(p.checkpoint_uri("/d"), "s3://b/ck");
    assert!(!p.after_step(99));
    assert!(p.after_step(100));
    assert_eq!(p.next_checkpoint_step, 200);
    assert!(!p.after_step(150));
}
