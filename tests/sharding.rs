use dl_driver::sharding::{apply_sharding_strategy, ShardError};

fn files(n: usize) -> Vec<String> {
    (0..n).map(|i| format!("f{}", i)).collect()
}

#[test]
fn interleaved_round_robin() {
    let f = files(7);
    assert_eq!(apply_sharding_strategy(&f, 1, 3, "interleaved").unwrap(), vec!["f1", "f4"]);
    assert_eq!(apply_sharding_strategy(&f, 0, 3, "interleaved").unwrap(), vec!["f0", "f3", "f6"]);
}

#[test]
fn contiguous_blocks() {
    let f = files(7);
    assert_eq!(apply_sharding_strategy(&f, 0, 3, "contiguous").unwrap(), vec!["f0", "f1", "f2"]);
    assert_eq!(apply_sharding_strategy(&f, 1, 3, "contiguous").unwrap(), vec!["f3", "f4"]);
    assert_eq!(apply_sharding_strategy(&f, 2, 3, "contiguous").unwrap(), vec!["f5", "f6"]);
    let small = files(2);
    assert_eq!(apply_sharding_strategy(&small, 2, 3, "contiguous").unwrap(), Vec::<String>::new());
}

#[test]
fn hash_shards_partition_the_files() {
    let f = files(20);
    let mut all: Vec<String> = Vec::new();
    for r in 0..4 {
        all.extend(apply_sharding_strategy(&f, r, 4, "hash").unwrap());
    }
    all.sort();
    let mut expected = f.clone();
    expected.sort();
    assert_eq!(all, expected);
}

#[test]
fn sharding_edge_cases() {
    assert_eq!(apply_sharding_strategy(&vec![], 0, 2, "bogus").unwrap(), Vec::<String>::new());
    assert_eq!(
        apply_sharding_strategy(&files(3), 0, 2, "bogus"),
        Err(ShardError::UnknownStrategy("bogus".to_string()))
    );
}
