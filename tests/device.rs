use mtp_filler::device::{free_space_of, transfer_metadata, ContentKind, StoragePool};
use mtp_filler::error::FillError;

fn pools() -> Vec<StoragePool> {
    vec![
        StoragePool::new(65537, "Internal".to_string(), 2_000, 1_500).unwrap(),
        StoragePool::new(131073, "Card".to_string(), 9_000, 10).unwrap(),
    ]
}

#[test]
fn free_space_of_reads_the_matching_pool() {
    assert_eq!(free_space_of(&pools(), 131073), Ok(10));
    assert_eq!(free_space_of(&pools(), 65537), Ok(1_500));
}

#[test]
fn free_space_of_unknown_pool_is_a_query_error() {
    assert_eq!(free_space_of(&pools(), 7), Err(FillError::StorageQuery));
    assert_eq!(free_space_of(&Vec::new(), 7), Err(FillError::StorageQuery));
}

#[test]
fn storage_pool_refuses_more_free_than_capacity() {
    assert!(matches!(StoragePool::new(1, "x".to_string(), 10, 11), Err(FillError::StorageQuery)));
    let p = StoragePool::new(1, "x".to_string(), 10, 10).unwrap();
    assert_eq!((p.id(), p.capacity(), p.free()), (1, 10, 10));
    assert_eq!(p.description(), "x");
}

#[test]
fn transfer_metadata_is_of_unknown_kind() {
    let m = transfer_metadata("a_filler.txt".to_string(), 4096, 1_700_000_000);
    assert_eq!(m.file_name, "a_filler.txt");
    assert_eq!(m.file_size, 4096);
    assert_eq!(m.modified, 1_700_000_000);
    assert_eq!(m.kind, ContentKind::Unknown);
}
