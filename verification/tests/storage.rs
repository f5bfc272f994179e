use hyperthree_native::storage::{
    check_file_size, parse_values, sorted_entries, text_lt, SandboxError, SandboxFileStore, StorageError,
    StorageStore,
    MAX_SANDBOX_FILE_BYTES, MAX_STORAGE_BYTES,
};
use hyperthree_native::paths::PathRejection;

#[test]
fn storage_snapshot_lists_values_in_key_order() {
    let mut store = StorageStore::empty();
    assert_eq!(store.snapshot_json().unwrap(), "{}");
    store
        .replace_json(r#"{"score":"42","name":"pilot"}"#)
        .unwrap();
    assert_eq!(
        store.snapshot_json().unwrap(),
        r#"{"name":"pilot","score":"42"}"#
    );
    let restored = StorageStore::from_bytes(store.snapshot_json().unwrap().as_bytes()).unwrap();
    assert_eq!(
        restored.snapshot_json().unwrap(),
        r#"{"name":"pilot","score":"42"}"#
    );
}

#[test]
fn refused_storage_payloads_leave_values_unchanged() {
    let mut store = StorageStore::empty();
    store.replace_json(r#"{"a":"1"}"#).unwrap();
    assert_eq!(store.replace_json("not json"), Err(StorageError::InvalidJson));
    assert_eq!(store.replace_json("[1, 2]"), Err(StorageError::RootNotObject));
    assert_eq!(
        store.replace_json(r#"{"a":"1","b":2}"#),
        Err(StorageError::ValueNotString("b".to_string()))
    );
    let huge = format!("{{\"a\":\"{}\"}}", "x".repeat(MAX_STORAGE_BYTES));
    assert_eq!(store.replace_json(&huge), Err(StorageError::TooLarge));
    assert_eq!(store.snapshot_json().unwrap(), r#"{"a":"1"}"#);
}

#[test]
fn storage_values_parse_in_key_order() {
    assert_eq!(
        parse_values(br#"{"b":"2","a":"1"}"#).unwrap(),
        vec![("a".to_string(), "1".to_string()), ("b".to_string(), "2".to_string())]
    );
    assert_eq!(parse_values(b"{}").unwrap(), Vec::new());
    assert!(StorageStore::from_bytes(&vec![b' '; MAX_STORAGE_BYTES + 1]).is_err());
}

#[test]
fn sandbox_paths_stay_inside_the_sandbox() {
    let store = SandboxFileStore::new("/project/.hyperthree/files".to_string());
    assert_eq!(store.new_path("").unwrap(), "/project/.hyperthree/files");
    assert_eq!(
        store.new_path("saves/slot.bin").unwrap(),
        "/project/.hyperthree/files/saves/slot.bin"
    );
    assert_eq!(
        store.new_path("../outside"),
        Err(SandboxError::Invalid(PathRejection::Traversal))
    );
    assert_eq!(
        store.new_path("/etc/passwd"),
        Err(SandboxError::Invalid(PathRejection::Absolute))
    );
    assert_eq!(store.ensure_inside("/project/.hyperthree/files/saves"), Ok(()));
    assert_eq!(store.ensure_inside("/project/.hyperthree/filesx"), Err(SandboxError::Escapes));
    assert_eq!(store.ensure_inside("/project"), Err(SandboxError::Escapes));
}

#[test]
fn sandbox_writes_check_path_then_size() {
    let store = SandboxFileStore::new("/root-dir".to_string());
    assert_eq!(store.write_path("", 1), Err(SandboxError::EmptyPath));
    assert_eq!(
        store.write_path("a.bin", MAX_SANDBOX_FILE_BYTES + 1),
        Err(SandboxError::TooLarge)
    );
    assert_eq!(store.write_path("a.bin", 3).unwrap(), "/root-dir/a.bin");
    assert_eq!(check_file_size(MAX_SANDBOX_FILE_BYTES), Ok(()));
    assert_eq!(check_file_size(MAX_SANDBOX_FILE_BYTES + 1), Err(SandboxError::TooLarge));
}

#[test]
fn existing_sandbox_paths_are_canonical_and_inside() {
    let sandbox = SandboxFileStore::new("/data/opfs".to_string());
    let canonicalize = |p: &str| -> Option<String> {
        match p {
            "/data/opfs/save.json" => Some("/data/opfs/save.json".to_string()),
            "/data/opfs/link" => Some("/etc/passwd".to_string()),
            "/data/opfs" => Some("/data/opfs".to_string()),
            _ => None,
        }
    };
    assert_eq!(sandbox.existing_path("save.json", &canonicalize).unwrap(), "/data/opfs/save.json");
    assert_eq!(sandbox.existing_path("", &canonicalize).unwrap(), "/data/opfs");
    assert_eq!(sandbox.existing_path("link", &canonicalize), Err(SandboxError::Escapes));
    assert_eq!(sandbox.existing_path("gone.txt", &canonicalize), Err(SandboxError::Missing));
    assert_eq!(
        sandbox.existing_path("../x", &canonicalize),
        Err(SandboxError::Invalid(PathRejection::Traversal))
    );
}

#[test]
fn persisted_storage_reads_back_the_same_values() {
    let mut store = StorageStore::empty();
    store.replace_json(r#"{"quote":"say \"hi\"","level":"3"}"#).unwrap();
    let bytes = store.persisted_bytes().unwrap();
    let restored = StorageStore::from_bytes(&bytes).unwrap();
    assert_eq!(restored.snapshot_json().unwrap(), store.snapshot_json().unwrap());
    assert_eq!(restored.snapshot_json().unwrap(), r#"{"level":"3","quote":"say \"hi\""}"#);
}

#[test]
fn sandbox_listings_are_sorted_by_name() {
    let entries = vec![
        ("b.txt".to_string(), false),
        ("a".to_string(), true),
        ("\u{e9}t\u{e9}".to_string(), false),
        ("B.txt".to_string(), false),
        ("a.txt".to_string(), false),
    ];
    let names = sorted_entries(entries)
        .into_iter()
        .map(|(name, is_dir)| format!("{name}:{is_dir}"))
        .collect::<Vec<_>>();
    assert_eq!(names, vec!["B.txt:false", "a:true", "a.txt:false", "b.txt:false", "\u{e9}t\u{e9}:false"]);
    assert!(sorted_entries(Vec::new()).is_empty());
    assert!(text_lt("a", "ab"));
    assert!(!text_lt("ab", "a"));
    assert!(!text_lt("same", "same"));
}

#[test]
fn sandbox_writes_resolve_links_before_checking() {
    let sandbox = SandboxFileStore::new("/data/opfs".to_string());
    let canonicalize = |p: &str| -> Option<String> {
        match p {
            "/data/opfs" | "/data/opfs/saves" => Some(p.to_string()),
            "/data/opfs/saves/slot.bin" => Some(p.to_string()),
            "/data/opfs/linkdir" => Some("/etc".to_string()),
            "/data/opfs/saves/link.bin" => Some("/etc/passwd".to_string()),
            _ => None,
        }
    };
    assert_eq!(sandbox.write_target("/data/opfs/new.bin", &canonicalize).unwrap(), "/data/opfs/new.bin");
    assert_eq!(
        sandbox.write_target("/data/opfs/saves/slot.bin", &canonicalize).unwrap(),
        "/data/opfs/saves/slot.bin"
    );
    assert_eq!(sandbox.write_target("/data/opfs/linkdir/x", &canonicalize), Err(SandboxError::Escapes));
    assert_eq!(sandbox.write_target("/data/opfs/saves/link.bin", &canonicalize), Err(SandboxError::Escapes));
    assert_eq!(sandbox.write_target("/data/opfs/gone/x", &canonicalize), Err(SandboxError::Missing));
    assert_eq!(sandbox.write_target("", &canonicalize), Err(SandboxError::NoParent));
}

#[test]
fn sandbox_directories_are_made_below_an_ancestor_inside() {
    let sandbox = SandboxFileStore::new("/data/opfs".to_string());
    let canonicalize = |p: &str| -> Option<String> {
        match p {
            "/data/opfs" | "/data/opfs/saves" => Some(p.to_string()),
            "/data/opfs/linkdir" => Some("/etc".to_string()),
            _ => None,
        }
    };
    assert_eq!(sandbox.check_nearest_ancestor("/data/opfs/saves/new/deep/x", &canonicalize), Ok(()));
    assert_eq!(
        sandbox.check_nearest_ancestor("/data/opfs/linkdir/new/x", &canonicalize),
        Err(SandboxError::Escapes)
    );
    assert_eq!(sandbox.check_nearest_ancestor("gone/x", &|_: &str| None), Err(SandboxError::Missing));
}
