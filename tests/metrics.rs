use dl_driver::metrics::{average_duration, Metrics};

#[test]
fn metrics_start_empty() {
    let m = Metrics::new();
    assert_eq!(m.files_processed(), 0);
    assert_eq!(m.bytes_read(), 0);
    assert_eq!(m.bytes_written(), 0);
    assert_eq!(m.total_time(), None);
    assert_eq!(m.average_read_time(), None);
    assert_eq!(m.average_write_time(), None);
}

#[test]
fn write_and_batch_records() {
    let mut m = Metrics::new();
    m.record_write_operation(4096, 1_000);
    m.record_write_operation(1024, 3_000);
    m.record_batch_processing(8, 2_000);
    assert_eq!(m.files_processed(), 2);
    assert_eq!(m.bytes_written(), 5120);
    assert_eq!(m.bytes_read(), 8 * 1024);
    assert_eq!(m.batches_processed, 1);
    assert_eq!(m.average_write_time(), Some(2_000));
    assert_eq!(m.average_read_time(), Some(2_000));
}

#[test]
fn read_times_average_rounds_down() {
    let mut m = Metrics::new();
    m.record_read_time(10);
    m.record_read_time(11);
    m.record_bytes_read(300);
    m.record_bytes_written(7);
    m.record_write_time(4);
    assert_eq!(m.files_processed(), 2);
    assert_eq!(m.average_read_time(), Some(10));
    assert_eq!(m.bytes_read(), 300);
    assert_eq!(m.bytes_written(), 7);
    assert_eq!(m.average_write_time(), Some(4));
}

#[test]
fn file_generation_and_total_time() {
    let mut m = Metrics::new();
    m.record_file_generated("a.npz".to_string(), 2048, 500);
    m.set_total_time(9_000);
    assert_eq!(m.total_time(), Some(9_000));
    m.record_total_time(10_000);
    assert_eq!(m.total_time(), Some(10_000));
    assert_eq!(m.files_processed(), 1);
    assert_eq!(m.bytes_written(), 2048);
    assert_eq!(m.write_times, vec![500]);
}

#[test]
fn average_of_large_durations_does_not_overflow() {
    let times = vec![u64::MAX, u64::MAX, u64::MAX - 2];
    assert_eq!(average_duration(&times), Some(u64::MAX - 1));
    assert_eq!(average_duration(&vec![]), None);
}
