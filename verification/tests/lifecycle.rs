//! The testcase lifecycle machine against an in-memory store.

use fuzzsched::Error;
use fuzzsched::input::BytesInput;
use fuzzsched::storage::{MemStorage, Storage};
use fuzzsched::testcase::{FileBackedTestcase, Testcase};

fn stored(path: &str) -> FileBackedTestcase {
    FileBackedTestcase::Stored { filename: String::from(path) }
}

fn dirty(path: &str, bytes: Vec<u8>) -> FileBackedTestcase {
    FileBackedTestcase::Dirty { input: BytesInput::new(bytes), filename: String::from(path) }
}

fn loaded(path: &str, bytes: Vec<u8>) -> FileBackedTestcase {
    FileBackedTestcase::Loaded { input: BytesInput::new(bytes), filename: String::from(path) }
}

fn input_bytes(tc: &FileBackedTestcase) -> Vec<u8> {
    match tc {
        FileBackedTestcase::Loaded { input, .. } => input.bytes.clone(),
        FileBackedTestcase::Dirty { input, .. } => input.bytes.clone(),
        FileBackedTestcase::Stored { .. } => panic!("no input in memory"),
    }
}

#[test]
fn load_stored_reads_from_disk() {
    let mut storage = MemStorage::new();
    storage.write(&String::from("a"), &vec![1u8, 2, 3]).unwrap();
    let mut tc = stored("a");
    assert!(tc.load(&storage).is_ok());
    assert!(matches!(tc, FileBackedTestcase::Loaded { .. }));
    assert_eq!(input_bytes(&tc), vec![1u8, 2, 3]);
}

#[test]
fn load_missing_file_fails() {
    let storage = MemStorage::new();
    let mut tc = stored("missing");
    assert_eq!(tc.load(&storage), Err(Error::Io));
    assert!(matches!(tc, FileBackedTestcase::Stored { .. }));
}

#[test]
fn load_loaded_is_noop() {
    let storage = MemStorage::new();
    let mut tc = loaded("a", vec![9u8]);
    assert!(tc.load(&storage).is_ok());
    assert_eq!(input_bytes(&tc), vec![9u8]);
}

#[test]
fn load_dirty_fails_and_keeps_input() {
    let mut storage = MemStorage::new();
    storage.write(&String::from("a"), &vec![1u8]).unwrap();
    let mut tc = dirty("a", vec![7u8, 8]);
    assert_eq!(tc.load(&storage), Err(Error::IllegalState));
    assert!(matches!(tc, FileBackedTestcase::Dirty { .. }));
    assert_eq!(input_bytes(&tc), vec![7u8, 8]);
}

#[test]
fn save_dirty_overwrites_disk() {
    let mut storage = MemStorage::new();
    storage.write(&String::from("a"), &vec![1u8]).unwrap();
    let mut tc = dirty("a", vec![5u8, 6]);
    assert!(tc.save(&mut storage).is_ok());
    assert!(matches!(tc, FileBackedTestcase::Loaded { .. }));
    assert_eq!(storage.read(&String::from("a")).unwrap(), vec![5u8, 6]);
}

#[test]
fn save_stored_fails() {
    let mut storage = MemStorage::new();
    let mut tc = stored("a");
    assert_eq!(tc.save(&mut storage), Err(Error::IllegalState));
    assert!(matches!(tc, FileBackedTestcase::Stored { .. }));
}

#[test]
fn save_loaded_is_noop() {
    let mut storage = MemStorage::new();
    let mut tc = loaded("a", vec![3u8]);
    assert!(tc.save(&mut storage).is_ok());
    assert!(storage.read(&String::from("a")).is_err());
}

#[test]
fn refresh_routes_dirty_through_save() {
    let mut storage = MemStorage::new();
    let mut tc = dirty("a", vec![4u8]);
    assert!(tc.refresh(&mut storage).is_ok());
    assert!(matches!(tc, FileBackedTestcase::Loaded { .. }));
    assert_eq!(storage.read(&String::from("a")).unwrap(), vec![4u8]);
}

#[test]
fn refresh_routes_stored_through_load() {
    let mut storage = MemStorage::new();
    storage.write(&String::from("a"), &vec![2u8]).unwrap();
    let mut tc = stored("a");
    assert!(tc.refresh(&mut storage).is_ok());
    assert_eq!(input_bytes(&tc), vec![2u8]);
}

#[test]
fn unload_loaded_drops_input() {
    let mut storage = MemStorage::new();
    let mut tc = loaded("a", vec![1u8]);
    assert!(tc.unload(&mut storage).is_ok());
    assert!(matches!(tc, FileBackedTestcase::Stored { .. }));
}

#[test]
fn unload_stored_is_noop() {
    let mut storage = MemStorage::new();
    let mut tc = stored("a");
    assert!(tc.unload(&mut storage).is_ok());
    assert!(matches!(tc, FileBackedTestcase::Stored { .. }));
}

#[test]
fn unload_dirty_saves_before_dropping() {
    let mut storage = MemStorage::new();
    storage.write(&String::from("a"), &vec![0u8]).unwrap();
    let mut tc = dirty("a", vec![42u8, 43]);
    assert!(tc.unload(&mut storage).is_ok());
    assert!(matches!(tc, FileBackedTestcase::Stored { .. }));
    assert_eq!(storage.read(&String::from("a")).unwrap(), vec![42u8, 43]);
}

#[test]
fn save_then_load_round_trips() {
    let mut storage = MemStorage::new();
    let mut tc = dirty("p", vec![10u8, 20, 30]);
    assert!(tc.save(&mut storage).is_ok());
    let mut fresh = stored("p");
    assert!(fresh.load(&storage).is_ok());
    assert_eq!(input_bytes(&fresh), vec![10u8, 20, 30]);
}

#[test]
fn serialize_deserialize_round_trips() {
    let input = BytesInput::new(vec![1u8, 2, 3, 4]);
    let bytes = input.serialize();
    let back = BytesInput::deserialize(bytes);
    assert_eq!(back.bytes, vec![1u8, 2, 3, 4]);
    assert_eq!(back.len(), 4);
}

#[test]
fn load_input_uses_memory_first() {
    let storage = MemStorage::new();
    let mut tc = Testcase::new(BytesInput::new(vec![1u8]));
    assert!(tc.load_input(&storage).is_ok());
    assert_eq!(tc.input().as_ref().unwrap().bytes, vec![1u8]);
}

#[test]
fn load_input_reads_and_caches_from_disk() {
    let mut storage = MemStorage::new();
    storage.write(&String::from("f"), &vec![8u8, 9]).unwrap();
    let mut tc = Testcase::default();
    *tc.filename_mut() = Some(String::from("f"));
    assert!(tc.load_input(&storage).is_ok());
    assert_eq!(tc.input().as_ref().unwrap().bytes, vec![8u8, 9]);
    let empty = MemStorage::new();
    assert!(tc.load_input(&empty).is_ok());
}

#[test]
fn load_input_without_source_fails() {
    let storage = MemStorage::new();
    let mut tc = Testcase::default();
    assert_eq!(tc.load_input(&storage), Err(Error::EmptyReference));
}

#[test]
fn load_input_missing_file_fails() {
    let storage = MemStorage::new();
    let mut tc = Testcase::with_filename(BytesInput::new(vec![1u8]), String::from("x"));
    *tc.input_mut() = None;
    assert_eq!(tc.load_input(&storage), Err(Error::Io));
}
