use noosphere::iroh::block::{BlockError, GetAction, GetEvent, GetPhase, PutAction, PutEvent};
use noosphere::iroh::hash::same_hash;
use noosphere::iroh::open::{
    StorageAction, StorageEvent, StoreAction, StoreDirectory, StoreEvent, StoreOpening,
};
use noosphere::iroh::storage::{IrohStorage, IrohStore, NoSuchStore, RedbStore};
use std::collections::HashMap;

fn store() -> IrohStore<()> {
    IrohStore { db: (), name: "blocks".to_string() }
}

fn storage() -> IrohStorage<(), String> {
    IrohStorage { rt: (), path: "/data".to_string() }
}

fn known() -> Vec<String> {
    vec!["blocks".to_string(), "links".to_string()]
}

/// The content identifier of a block.
fn cid(block: &[u8]) -> Vec<u8> {
    iroh_bytes::Hash::new(block).as_cid_bytes().to_vec()
}

/// Imports bytes as a blob.
fn import(blobs: &mut HashMap<Vec<u8>, Vec<u8>>, block: &[u8]) -> Vec<u8> {
    let hash = iroh_bytes::Hash::new(block).as_bytes().to_vec();
    blobs.insert(hash.clone(), block.to_vec());
    hash
}

fn put(
    blobs: &mut HashMap<Vec<u8>, Vec<u8>>,
    cid: &[u8],
    block: &[u8],
) -> Result<(), BlockError<String>> {
    let mut put = store().put_block::<String>(cid, block);
    loop {
        let event = match put.action() {
            PutAction::Import { block } => PutEvent::Imported { hash: import(blobs, block) },
            PutAction::Finish => break,
        };
        put = put.step(event);
    }
    put.outcome().unwrap()
}

fn get(
    blobs: &HashMap<Vec<u8>, Vec<u8>>,
    cid: &[u8],
) -> Result<Option<Vec<u8>>, BlockError<String>> {
    let mut get = store().get_block::<Vec<u8>, String>(cid);
    loop {
        let event = match get.action() {
            GetAction::LookUp { hash } => match blobs.get(hash) {
                Some(blob) => GetEvent::Found { entry: blob.clone() },
                None => GetEvent::Missing,
            },
            GetAction::Read { entry } => GetEvent::Data { bytes: entry.clone() },
            GetAction::Finish => break,
        };
        get = get.step(event);
    }
    get.outcome().unwrap()
}

#[test]
fn stored_block_is_read_back() {
    let mut blobs = HashMap::new();
    assert!(matches!(get(&blobs, &cid(b"hello")), Ok(None)));
    assert!(put(&mut blobs, &cid(b"hello"), b"hello").is_ok());
    assert!(put(&mut blobs, &cid(b"world"), b"world").is_ok());
    assert!(matches!(get(&blobs, &cid(b"hello")), Ok(Some(bytes)) if bytes == b"hello"));
    assert!(matches!(get(&blobs, &cid(b"other")), Ok(None)));
}

#[test]
fn block_must_have_the_hash_of_its_identifier() {
    let mut blobs = HashMap::new();
    let error = put(&mut blobs, &cid(b"hello"), b"world").unwrap_err();
    assert!(matches!(error, BlockError::HashMismatch));
    assert_eq!(error.message(), Some("hash missmatch".to_string()));
    assert!(matches!(get(&blobs, &cid(b"hello")), Ok(None)));
    assert!(matches!(get(&blobs, &cid(b"world")), Ok(Some(bytes)) if bytes == b"world"));
}

#[test]
fn refused_block_leaves_what_is_read() {
    let mut blobs = HashMap::new();
    assert!(put(&mut blobs, &cid(b"hello"), b"hello").is_ok());
    assert!(put(&mut blobs, &cid(b"hello"), b"world").is_err());
    assert!(matches!(get(&blobs, &cid(b"hello")), Ok(Some(bytes)) if bytes == b"hello"));
}

#[test]
fn hash_is_taken_from_the_identifier() {
    let bytes = cid(b"hello");
    let get = store().get_block::<(), ()>(&bytes);
    match get.phase {
        GetPhase::LookUp { hash } => assert_eq!(hash, bytes[4..]),
        _ => panic!("no hash"),
    }
}

#[test]
fn identifier_of_another_length_is_refused() {
    let mut blobs = HashMap::new();
    let error = put(&mut blobs, &cid(b"hello")[..35], b"hello").unwrap_err();
    assert_eq!(
        error.message(),
        Some("invalid cid length, expected 36, got 35".to_string())
    );
    let error = get(&blobs, &[]).unwrap_err();
    assert_eq!(
        error.message(),
        Some("invalid cid length, expected 36, got 0".to_string())
    );
    assert!(blobs.is_empty());
}

#[test]
fn identifier_with_another_prefix_is_refused() {
    let mut blobs = HashMap::new();
    let mut bytes = cid(b"hello");
    bytes[2] = 0x12;
    let error = put(&mut blobs, &bytes, b"hello").unwrap_err();
    assert_eq!(error.message(), Some("invalid cid prefix".to_string()));
    assert!(matches!(get(&blobs, &bytes), Err(BlockError::InvalidCid { .. })));
    assert!(blobs.is_empty());
}

#[test]
fn blobs_are_told_apart_by_hash() {
    assert!(same_hash(&vec![1, 2], &vec![1, 2]));
    assert!(!same_hash(&vec![1, 2], &vec![1, 3]));
    assert!(!same_hash(&vec![1, 2], &vec![1]));
    assert_ne!(cid(b"hello")[4..], cid(b"world")[4..]);
}

#[test]
fn failing_store_of_blobs_is_reported() {
    let bytes = cid(b"hello");
    let put = store().put_block::<u8>(&bytes, b"hello").step(PutEvent::Failed { error: 1 });
    let error = put.outcome().unwrap().unwrap_err();
    assert!(matches!(error, BlockError::Store { error: 1 }));
    assert_eq!(error.message(), None);
    let get = store().get_block::<(), u8>(&bytes).step(GetEvent::Failed { error: 2 });
    assert!(matches!(get.outcome(), Some(Err(BlockError::Store { error: 2 }))));
    let get = store()
        .get_block::<(), u8>(&bytes)
        .step(GetEvent::Found { entry: () })
        .step(GetEvent::Missing)
        .step(GetEvent::Failed { error: 3 });
    assert!(matches!(get.outcome(), Some(Err(BlockError::Store { error: 3 }))));
}

#[test]
fn only_known_stores_are_given() {
    let store = storage().get_key_value_store(&known(), "links").unwrap();
    assert_eq!(store.name, "links");
    let error = storage().get_key_value_store(&known(), "link").unwrap_err();
    assert_eq!(error.message(), "No such store named link");
    let opening: Result<StoreOpening<(), ()>, NoSuchStore> =
        storage().get_block_store(&known(), "other");
    assert_eq!(opening.err().unwrap().message(), "No such store named other");
    let opening: Result<StoreOpening<(), ()>, NoSuchStore> =
        storage().get_block_store(&known(), "blocks");
    assert_eq!(opening.ok().unwrap().name, "blocks");
}

#[test]
fn key_value_store_has_its_name() {
    assert_eq!(RedbStore::new("links").ok().unwrap().name, "links");
    assert_eq!(RedbStore::new("").ok().unwrap().name, "");
}

#[test]
fn directories_exist_before_loading() {
    let mut opening: StoreOpening<u32, String> = IrohStore::new("blocks");
    let mut created = Vec::new();
    loop {
        let event = match opening.action() {
            StoreAction::CreateDirectory { store, directory } => {
                created.push(format!("{}/{}", store, directory.name()));
                StoreEvent::DirectoryCreated
            }
            StoreAction::Load { store } => {
                assert_eq!(store, "blocks");
                assert_eq!(created, ["blocks/complete", "blocks/partial", "blocks/meta"]);
                StoreEvent::Loaded { db: 42 }
            }
            StoreAction::Finish => break,
        };
        opening = opening.step(event);
    }
    let store = opening.outcome().unwrap().unwrap();
    assert_eq!(store.db, 42);
    assert_eq!(store.name, "blocks");
}

#[test]
fn store_is_not_loaded_after_a_failure() {
    let opening: StoreOpening<u32, u8> = IrohStore::new("blocks");
    let opening = opening
        .step(StoreEvent::Loaded { db: 1 })
        .step(StoreEvent::DirectoryCreated)
        .step(StoreEvent::Failed { error: 9 })
        .step(StoreEvent::Loaded { db: 2 });
    assert!(matches!(opening.outcome(), Some(Err(9))));
    assert_eq!(StoreDirectory::Meta.name(), "meta");
}

#[test]
fn storage_keeps_the_canonical_path() {
    let opening = IrohStorage::<u32, String>::new::<String>("data/../data".to_string());
    assert!(matches!(
        opening.action(),
        StorageAction::CreateDirectory { path } if path == "data/../data"
    ));
    let opening = opening.step(StorageEvent::DirectoryCreated);
    assert!(matches!(
        opening.action(),
        StorageAction::Canonicalize { path } if path == "data/../data"
    ));
    let opening = opening.step(StorageEvent::Canonical { path: "/data".to_string() });
    assert!(matches!(opening.action(), StorageAction::FindRuntime { local_threads: 1 }));
    let opening = opening.step(StorageEvent::Runtime { rt: 5 });
    let storage = opening.outcome().unwrap().unwrap();
    assert_eq!(storage.path, "/data");
    assert_eq!(storage.rt, 5);
}

#[test]
fn storage_without_a_runtime_is_not_opened() {
    let opening = IrohStorage::<u32, u8>::new::<String>(1)
        .step(StorageEvent::DirectoryCreated)
        .step(StorageEvent::Canonical { path: 2 })
        .step(StorageEvent::Failed { error: "no runtime".to_string() });
    assert_eq!(opening.outcome().unwrap().err(), Some("no runtime".to_string()));
}
