use automerge::transaction::Transactable;
use automerge::{AutoCommit, ReadDoc, ROOT};
use docstore::commands::{answer, greet, spawned};
use docstore::doc_ids::DocIds;
use docstore::document::{
    after_apply, after_decode, after_load, after_save, initial_document, merge_changes,
    merge_error, MergeFailure,
};
use docstore::error::StoreError;
use docstore::startup::{
    app_data_dir, database_file_name, documents_dir_name, required_data_dir, StartupFailure,
};

#[test]
fn greeting() {
    assert_eq!(greet("Ada"), "Hello, Ada! You've been greeted from Rust!");
    assert_eq!(greet(""), "Hello, ! You've been greeted from Rust!");
}

#[test]
fn messages_of_errors() {
    let cases = vec![
        (StoreError::Io("x".to_string()), "IO error: x"),
        (StoreError::Database("x".to_string()), "Database error: x"),
        (StoreError::Automerge("x".to_string()), "Automerge error: x"),
        (StoreError::Join("x".to_string()), "Task join error: x"),
        (StoreError::DocumentNotFound("x".to_string()), "Document not found: x"),
        (StoreError::InvalidChangeData("x".to_string()), "Invalid Automerge change data: x"),
        (StoreError::Other("x".to_string()), "Other error: x"),
    ];
    for (error, text) in cases {
        assert_eq!(error.message(), text);
    }
}

#[test]
fn answers_of_commands() {
    assert_eq!(answer(Ok(3)), Ok(3));
    let failed: Result<u8, StoreError> = Err(StoreError::Io("disk".to_string()));
    assert_eq!(answer(failed), Err("IO error: disk".to_string()));
}

#[test]
fn lost_commands_are_reported() {
    let lost: Result<Result<(), StoreError>, String> = Err("cancelled".to_string());
    assert_eq!(answer(spawned(lost)), Err("Other error: Task join error: cancelled".to_string()));
    assert_eq!(answer(spawned(Ok(Ok(7)))), Ok(7));
    let failed: Result<Result<(), StoreError>, String> =
        Ok(Err(StoreError::DocumentNotFound("d".to_string())));
    assert_eq!(answer(spawned(failed)), Err("Document not found: d".to_string()));
}

#[test]
fn initial_document_is_an_empty_document() {
    let bytes = initial_document();
    assert!(AutoCommit::load(&bytes).unwrap().get_heads().is_empty());
    assert_eq!(bytes, AutoCommit::new().save());
}

#[test]
fn merge_failures_and_their_errors() {
    match merge_changes(vec![1, 2, 3], vec![1]) {
        Err(MergeFailure::Load(text)) => assert!(!text.is_empty()),
        other => panic!("{:?}", other),
    }
    match merge_changes(initial_document(), vec![1]) {
        Err(MergeFailure::Decode(text)) => assert!(text.starts_with("unable to parse change")),
        other => panic!("{:?}", other),
    }
    let load = merge_error(MergeFailure::Load("l".to_string()));
    assert_eq!(load.message(), "Automerge error: l");
    let decode = merge_error(MergeFailure::Decode("d".to_string()));
    assert_eq!(decode.message(), "Invalid Automerge change data: d");
    let apply = merge_error(MergeFailure::Apply("a".to_string()));
    assert_eq!(apply.message(), "Automerge error: a");
    let lost = merge_error(MergeFailure::Lost("p".to_string()));
    assert_eq!(lost.message(), "Task join error: p");
}

#[test]
fn merging_works_on_the_thread_of_a_runtime() {
    let mut source = AutoCommit::new();
    source.put(ROOT, "k", 1).unwrap();
    let change = source.get_changes(&[])[0].raw_bytes().to_vec();
    let runtime = tokio::runtime::Builder::new_current_thread().build().unwrap();
    let merged = runtime.block_on(std::future::poll_fn(move |_| {
        std::task::Poll::Ready(merge_changes(initial_document(), change.clone()))
    }));
    let doc = AutoCommit::load(&merged.unwrap()).unwrap();
    assert!(doc.get(ROOT, "k").unwrap().is_some());
}

#[test]
fn ids_are_a_set() {
    let mut ids = DocIds::new();
    assert!(!ids.contains("a"));
    ids.insert("a".to_string());
    ids.insert("b".to_string());
    ids.insert("a".to_string());
    assert!(ids.contains("a") && ids.contains("b"));
    assert_eq!(ids.list().len(), 2);
    ids.remove(&"c".to_string());
    ids.remove(&"a".to_string());
    assert!(!ids.contains("a"));
    assert_eq!(ids.list(), vec!["b".to_string()]);
}

#[test]
fn names_of_the_storage() {
    assert_eq!(documents_dir_name(), "automerge_docs");
    assert_eq!(database_file_name(), "metadata.db");
}

#[test]
fn data_directory_is_required() {
    assert!(matches!(required_data_dir(None), Err(StartupFailure::NoDataDir)));
    let dir = std::path::PathBuf::from("/data");
    assert_eq!(required_data_dir(Some(dir.clone())).unwrap(), dir);
}

#[test]
fn data_directory_is_that_of_the_application() {
    match app_data_dir() {
        Ok(dir) => {
            let expected = directories::ProjectDirs::from("com", "lifemanager", "LifeManager");
            assert_eq!(dir, expected.unwrap().data_dir());
        }
        Err(failure) => {
            assert!(matches!(failure, StartupFailure::NoDataDir));
            assert!(directories::ProjectDirs::from("com", "lifemanager", "LifeManager").is_none());
        }
    }
}

#[test]
fn outcomes_of_calls_keep_kind_and_text() {
    let refused = || -> Result<Result<u8, String>, String> { Ok(Err("e".to_string())) };
    let lost = || -> Result<Result<u8, String>, String> { Err("p".to_string()) };
    assert!(matches!(after_load(refused()), Err(MergeFailure::Load(t)) if t == "e"));
    assert!(matches!(after_load(lost()), Err(MergeFailure::Lost(t)) if t == "p"));
    assert!(matches!(after_load(Ok(Ok(3u8))), Ok(3)));
    assert!(matches!(after_decode(refused()), Err(MergeFailure::Decode(t)) if t == "e"));
    assert!(matches!(after_decode(lost()), Err(MergeFailure::Lost(t)) if t == "p"));
    assert!(matches!(after_decode(Ok(Ok(3u8))), Ok(3)));
    assert!(matches!(after_apply(refused()), Err(MergeFailure::Apply(t)) if t == "e"));
    assert!(matches!(after_apply(lost()), Err(MergeFailure::Lost(t)) if t == "p"));
    assert!(matches!(after_apply(Ok(Ok(3u8))), Ok(3)));
    assert!(matches!(after_save(Err("p".to_string())), Err(MergeFailure::Lost(t)) if t == "p"));
    assert_eq!(after_save(Ok(vec![1, 2])).unwrap(), vec![1, 2]);
}

#[test]
fn load_errors_carry_the_text_of_the_crate() {
    let expected = AutoCommit::load(&[1, 2, 3]).unwrap_err().to_string();
    match merge_changes(vec![1, 2, 3], vec![1]) {
        Err(MergeFailure::Load(text)) => assert_eq!(text, expected),
        other => panic!("{:?}", other),
    }
}
