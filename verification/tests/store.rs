use std::collections::BTreeMap;

use automerge::transaction::Transactable;
use automerge::{AutoCommit, Change, ObjType, ReadDoc, ROOT};
use docstore::action::{document_file_name, Action, Failure};
use docstore::error::StoreError;
use docstore::startup::StartupFailure;
use docstore::store::{answer_unchanged, Reply, Start, Store};
use docstore::task::{write_merged, Completion, Next, Task};
use docstore::document::MergeFailure;

/// Files and rows in memory, with the name of the kind of work that fails.
struct Disk {
    files: BTreeMap<String, Vec<u8>>,
    rows: BTreeMap<String, i64>,
    broken: &'static str,
}

impl Disk {
    fn new() -> Disk {
        Disk { files: BTreeMap::new(), rows: BTreeMap::new(), broken: "" }
    }

    fn perform(&mut self, action: Action) -> Result<Vec<u8>, Failure> {
        let kind = match &action {
            Action::ReadFile { .. } => "read",
            Action::WriteFile { .. } => "write",
            Action::RemoveFile { .. } => "remove",
            Action::InsertRow { .. } => "insert",
            Action::UpdateRow { .. } => "update",
            Action::DeleteRow { .. } => "delete",
        };
        if kind == self.broken {
            return Err(Failure::Other(format!("{} broke", kind)));
        }
        match action {
            Action::ReadFile { name } => match self.files.get(&name) {
                Some(bytes) => return Ok(bytes.clone()),
                None => return Err(Failure::NotFound("no such file".to_string())),
            },
            Action::WriteFile { name, bytes } => {
                self.files.insert(name, bytes);
            }
            Action::RemoveFile { name } => {
                if self.files.remove(&name).is_none() {
                    return Err(Failure::NotFound("no such file".to_string()));
                }
            }
            Action::InsertRow { id, last_modified } => {
                self.rows.entry(id).or_insert(last_modified);
            }
            Action::UpdateRow { id, last_modified } => {
                if let Some(time) = self.rows.get_mut(&id) {
                    *time = last_modified;
                }
            }
            Action::DeleteRow { id } => {
                self.rows.remove(&id);
            }
        }
        Ok(Vec::new())
    }

    fn serve(&mut self, store: &mut Store, start: Start) -> Result<Reply, StoreError> {
        let (mut task, mut action) = match start {
            Start::Answer(answer) => return answer,
            Start::Run(task, action) => (task, action),
        };
        loop {
            let outcome = self.perform(action);
            match task.resume(outcome) {
                Next::Perform(next_task, next_action) => {
                    task = next_task;
                    action = next_action;
                }
                Next::Stop(completion) => return store.complete(completion),
            }
        }
    }

    fn create(&mut self, store: &mut Store, id: &str) -> Result<Reply, StoreError> {
        let start = store.create_document(id.to_string());
        self.serve(store, start)
    }

    fn get(&mut self, store: &mut Store, id: &str) -> Result<Reply, StoreError> {
        let start = store.get_document(id);
        self.serve(store, start)
    }

    fn update(&mut self, store: &mut Store, id: &str, c: Vec<u8>) -> Result<Reply, StoreError> {
        let start = store.update_document(id.to_string(), c);
        self.serve(store, start)
    }

    fn delete(&mut self, store: &mut Store, id: &str) -> Result<Reply, StoreError> {
        let start = store.delete_document(id.to_string());
        self.serve(store, start)
    }
}

fn empty_store() -> Store {
    match Store::new(Ok(Vec::new())) {
        Ok(store) => store,
        Err(_) => panic!("an empty table opens"),
    }
}

fn listed(store: &Store) -> Vec<String> {
    let mut ids = store.list_documents().unwrap();
    ids.sort();
    ids
}

fn one_change() -> Vec<u8> {
    let mut doc = AutoCommit::new();
    doc.put(ROOT, "title", "groceries").unwrap();
    let changes = doc.get_changes(&[]);
    changes[0].raw_bytes().to_vec()
}

fn content(reply: Result<Reply, StoreError>) -> Vec<u8> {
    match reply {
        Ok(Reply::Content(bytes)) => bytes,
        other => panic!("expected content, got {:?}", other),
    }
}

fn first(start: Start) -> (Task, Action) {
    match start {
        Start::Run(task, action) => (task, action),
        Start::Answer(answer) => panic!("answered at once: {:?}", answer),
    }
}

fn message(result: Result<Reply, StoreError>) -> String {
    result.unwrap_err().message()
}

#[test]
fn file_names_carry_the_extension() {
    assert_eq!(document_file_name("notes"), "notes.automerge");
    assert_eq!(document_file_name(""), ".automerge");
}

#[test]
fn created_document_is_stored_and_listed() {
    let mut disk = Disk::new();
    let mut store = empty_store();
    assert!(!store.doc_exists("a"));
    assert_eq!(disk.create(&mut store, "a").unwrap(), Reply::Done);
    assert!(store.doc_exists("a"));
    assert_eq!(listed(&store), vec!["a".to_string()]);
    assert!(disk.files.contains_key("a.automerge"));
    assert!(disk.rows["a"] > 1_600_000_000_000);
    let bytes = content(disk.get(&mut store, "a"));
    assert!(AutoCommit::load(&bytes).unwrap().get_heads().is_empty());
}

#[test]
fn creating_twice_leaves_the_document() {
    let mut disk = Disk::new();
    let mut store = empty_store();
    disk.create(&mut store, "a").unwrap();
    disk.update(&mut store, "a", one_change()).unwrap();
    let before = disk.files.clone();
    match store.create_document("a".to_string()) {
        Start::Answer(Ok(Reply::Done)) => {}
        _ => panic!("nothing is to be done"),
    }
    assert_eq!(disk.files, before);
}

#[test]
fn create_writes_the_file_before_the_row() {
    let store = empty_store();
    let (task, action) = first(store.create_document("x".to_string()));
    match action {
        Action::WriteFile { name, bytes } => {
            assert_eq!(name, "x.automerge");
            assert!(AutoCommit::load(&bytes).is_ok());
            assert!(!bytes.is_empty());
        }
        other => panic!("{:?}", other),
    }
    match task.resume_at(Ok(Vec::new()), 77) {
        Next::Perform(task, action) => {
            assert_eq!(action, Action::InsertRow { id: "x".to_string(), last_modified: 77 });
            match task.resume_at(Ok(Vec::new()), 78) {
                Next::Stop(Completion::Created(id)) => assert_eq!(id, "x"),
                _ => panic!("the document is created"),
            }
        }
        Next::Stop(c) => panic!("{:?}", c),
    }
}

#[test]
fn rows_are_written_with_the_present_time() {
    let store = empty_store();
    let (task, _) = first(store.create_document("x".to_string()));
    match task.resume(Ok(Vec::new())) {
        Next::Perform(_, Action::InsertRow { last_modified, .. }) => {
            let now = chrono::Utc::now().timestamp_millis();
            assert!(last_modified <= now && last_modified > now - 60_000);
        }
        _ => panic!("a row is to be inserted"),
    }
}

#[test]
fn failures_of_create() {
    let mut disk = Disk::new();
    let mut store = empty_store();
    disk.broken = "write";
    assert_eq!(message(disk.create(&mut store, "a")), "IO error: write broke");
    disk.broken = "insert";
    assert_eq!(message(disk.create(&mut store, "a")), "Database error: insert broke");
    assert!(!store.doc_exists("a"));
    assert!(listed(&store).is_empty());
    disk.broken = "";
    disk.create(&mut store, "a").unwrap();
    assert!(store.doc_exists("a"));
}

#[test]
fn unknown_documents_are_not_found() {
    let mut disk = Disk::new();
    let mut store = empty_store();
    disk.create(&mut store, "other").unwrap();
    let text = "Document not found: ghost";
    assert_eq!(message(disk.get(&mut store, "ghost")), text);
    assert_eq!(message(disk.update(&mut store, "ghost", vec![1])), text);
    assert_eq!(message(disk.update(&mut store, "ghost", Vec::new())), text);
    assert_eq!(message(disk.delete(&mut store, "ghost")), text);
}

#[test]
fn update_merges_the_change() {
    let mut disk = Disk::new();
    let mut store = empty_store();
    disk.create(&mut store, "a").unwrap();
    disk.create(&mut store, "b").unwrap();
    let other = disk.files["b.automerge"].clone();
    disk.rows.insert("a".to_string(), 5);
    assert_eq!(disk.update(&mut store, "a", one_change()).unwrap(), Reply::Done);
    let doc = AutoCommit::load(&content(disk.get(&mut store, "a"))).unwrap();
    let (value, _) = doc.get(ROOT, "title").unwrap().unwrap();
    assert_eq!(value.to_str(), Some("groceries"));
    assert!(disk.rows["a"] > 5);
    assert_eq!(disk.files["b.automerge"], other);
}

#[test]
fn update_without_changes_does_nothing() {
    let mut disk = Disk::new();
    let mut store = empty_store();
    disk.create(&mut store, "a").unwrap();
    disk.rows.insert("a".to_string(), 5);
    assert_eq!(disk.update(&mut store, "a", Vec::new()).unwrap(), Reply::Done);
    assert_eq!(disk.rows["a"], 5);
}

#[test]
fn repeated_change_is_ignored() {
    let mut disk = Disk::new();
    let mut store = empty_store();
    disk.create(&mut store, "a").unwrap();
    let change = one_change();
    disk.update(&mut store, "a", change.clone()).unwrap();
    disk.update(&mut store, "a", change).unwrap();
    let mut doc = AutoCommit::load(&content(disk.get(&mut store, "a"))).unwrap();
    assert_eq!(doc.get_changes(&[]).len(), 1);
}

#[test]
fn malformed_changes_are_told_apart() {
    let mut disk = Disk::new();
    let mut store = empty_store();
    disk.create(&mut store, "a").unwrap();
    let before = disk.files.clone();
    let text = message(disk.update(&mut store, "a", vec![1, 2, 3]));
    assert!(text.starts_with("Invalid Automerge change data: unable to parse change: "), "{}", text);
    let mut two = one_change();
    two.extend(one_change());
    assert_eq!(
        message(disk.update(&mut store, "a", two)),
        "Invalid Automerge change data: leftover data after parsing"
    );
    let document = AutoCommit::new().save();
    assert_eq!(
        message(disk.update(&mut store, "a", document)),
        "Invalid Automerge change data: wrong chunk type"
    );
    assert_eq!(disk.files, before);
}

#[test]
fn spoilt_documents_are_reported_before_the_change() {
    let mut disk = Disk::new();
    let mut store = empty_store();
    disk.create(&mut store, "a").unwrap();
    disk.files.insert("a.automerge".to_string(), vec![9, 9, 9, 9, 9, 9]);
    let text = message(disk.update(&mut store, "a", vec![1]));
    assert!(text.starts_with("Automerge error: "), "{}", text);
}

#[test]
fn conflicting_changes_are_refused() {
    let mut disk = Disk::new();
    let mut store = empty_store();
    disk.create(&mut store, "a").unwrap();
    let actor = automerge::ActorId::from(vec![7u8, 7]);
    let mut changes = Vec::new();
    for value in ["one", "two"] {
        let mut doc = AutoCommit::new().with_actor(actor.clone());
        doc.put(ROOT, "k", value).unwrap();
        changes.push(doc.get_changes(&[])[0].raw_bytes().to_vec());
    }
    let second = changes.pop().unwrap();
    let first = changes.pop().unwrap();
    disk.update(&mut store, "a", first).unwrap();
    assert_eq!(
        message(disk.update(&mut store, "a", second)),
        "Automerge error: duplicate seq 1 found for actor 0707"
    );
}

#[test]
fn failures_of_update() {
    let mut disk = Disk::new();
    let mut store = empty_store();
    disk.create(&mut store, "a").unwrap();
    disk.broken = "read";
    assert_eq!(message(disk.update(&mut store, "a", one_change())), "IO error: read broke");
    disk.broken = "write";
    assert_eq!(message(disk.update(&mut store, "a", one_change())), "IO error: write broke");
    disk.broken = "update";
    assert_eq!(message(disk.update(&mut store, "a", one_change())), "Database error: update broke");
    assert_eq!(listed(&store), vec!["a".to_string()]);
}

#[test]
fn merged_documents_are_written() {
    match write_merged("d".to_string(), Ok(vec![1, 2])) {
        Next::Perform(_, action) => assert_eq!(
            action,
            Action::WriteFile { name: "d.automerge".to_string(), bytes: vec![1, 2] }
        ),
        Next::Stop(c) => panic!("{:?}", c),
    }
    match write_merged("d".to_string(), Err(MergeFailure::Decode("bad".to_string()))) {
        Next::Stop(Completion::Failed(error)) => {
            assert_eq!(error.message(), "Invalid Automerge change data: bad")
        }
        _ => panic!("the update fails"),
    }
}

#[test]
fn deleted_document_is_gone() {
    let mut disk = Disk::new();
    let mut store = empty_store();
    disk.create(&mut store, "a").unwrap();
    disk.create(&mut store, "b").unwrap();
    disk.create(&mut store, "c").unwrap();
    assert_eq!(disk.delete(&mut store, "b").unwrap(), Reply::Done);
    assert_eq!(listed(&store), vec!["a".to_string(), "c".to_string()]);
    assert!(!disk.files.contains_key("b.automerge"));
    assert!(!disk.rows.contains_key("b"));
    assert!(disk.files.contains_key("a.automerge") && disk.files.contains_key("c.automerge"));
    assert_eq!(message(disk.delete(&mut store, "b")), "Document not found: b");
}

#[test]
fn deletion_can_be_repeated_after_it_stopped_half_way() {
    let mut disk = Disk::new();
    let mut store = empty_store();
    disk.create(&mut store, "a").unwrap();
    disk.broken = "remove";
    assert_eq!(message(disk.delete(&mut store, "a")), "IO error: remove broke");
    disk.broken = "delete";
    assert_eq!(message(disk.delete(&mut store, "a")), "Database error: delete broke");
    assert!(store.doc_exists("a") && !disk.files.contains_key("a.automerge"));
    assert_eq!(message(disk.get(&mut store, "a")), "IO error: no such file");
    disk.broken = "";
    disk.delete(&mut store, "a").unwrap();
    assert!(!store.doc_exists("a"));
}

#[test]
fn lost_tasks_fail_their_request() {
    let mut store = empty_store();
    let answer = store.complete(Completion::join_failed("task 3 panicked".to_string()));
    assert_eq!(message(answer), "Task join error: task 3 panicked");
    assert!(listed(&store).is_empty());
}

#[test]
fn opening_reads_the_ids() {
    let rows = vec![Ok("b".to_string()), Ok("a".to_string()), Ok("b".to_string())];
    let store = match Store::new(Ok(rows)) {
        Ok(store) => store,
        Err(e) => panic!("{:?}", e),
    };
    assert_eq!(listed(&store), vec!["a".to_string(), "b".to_string()]);
}

#[test]
fn reopened_store_knows_the_documents() {
    let mut disk = Disk::new();
    let mut store = empty_store();
    disk.create(&mut store, "a").unwrap();
    disk.create(&mut store, "b").unwrap();
    disk.delete(&mut store, "a").unwrap();
    let rows = disk.rows.keys().map(|id| Ok(id.clone())).collect();
    match Store::new(Ok(rows)) {
        Ok(reopened) => assert_eq!(listed(&reopened), listed(&store)),
        Err(e) => panic!("{:?}", e),
    }
}

#[test]
fn opening_stops_at_the_first_unread_row() {
    let rows = vec![
        Ok("a".to_string()),
        Err("first".to_string()),
        Err("second".to_string()),
    ];
    match Store::new(Ok(rows)) {
        Ok(_) => panic!("a row could not be read"),
        Err(e) => assert_eq!(e.message(), "Database error: first"),
    }
}

#[test]
fn failures_of_opening() {
    let cases = vec![
        (StartupFailure::NoDataDir, "Other error: Failed to get application data directory"),
        (StartupFailure::CreateDir("x".to_string()), "IO error: x"),
        (StartupFailure::OpenDatabase("x".to_string()), "Database error: x"),
        (StartupFailure::CreateTable("x".to_string()), "Database error: x"),
        (StartupFailure::ReadIds("x".to_string()), "Database error: x"),
    ];
    for (failure, text) in cases {
        match Store::new(Err(failure)) {
            Ok(_) => panic!("the store cannot be opened"),
            Err(e) => assert_eq!(e.message(), text),
        }
    }
}

#[test]
fn changes_wait_for_those_they_depend_on() {
    let mut disk = Disk::new();
    let mut store = empty_store();
    disk.create(&mut store, "a").unwrap();
    let mut doc = AutoCommit::new();
    doc.put(ROOT, "k", "one").unwrap();
    doc.commit();
    doc.put(ROOT, "k", "two").unwrap();
    doc.commit();
    let changes: Vec<Vec<u8>> =
        doc.get_changes(&[]).iter().map(|c| c.raw_bytes().to_vec()).collect();
    assert_eq!(changes.len(), 2);
    disk.update(&mut store, "a", changes[1].clone()).unwrap();
    let early = AutoCommit::load(&content(disk.get(&mut store, "a"))).unwrap();
    assert!(early.get(ROOT, "k").unwrap().is_none());
    disk.update(&mut store, "a", changes[0].clone()).unwrap();
    let merged = AutoCommit::load(&content(disk.get(&mut store, "a"))).unwrap();
    let (value, _) = merged.get(ROOT, "k").unwrap().unwrap();
    assert_eq!(value.to_str(), Some("two"));
}

#[test]
fn no_document_is_kept_in_the_database_file() {
    for id in ["", "metadata", "metadata.db", "a"] {
        assert_ne!(document_file_name(id), docstore::startup::database_file_name());
    }
    assert_ne!(document_file_name("a"), document_file_name("a.automerge"));
}

/// A change whose second operation has a number beyond 32 bits.
fn overflowing_change() -> Vec<u8> {
    let mut doc = AutoCommit::new();
    doc.put(ROOT, "a", 1).unwrap();
    doc.put(ROOT, "b", 2).unwrap();
    let mut expanded = doc.get_changes(&[])[0].decode();
    expanded.start_op = std::num::NonZeroU64::new(u64::from(u32::MAX)).unwrap();
    Change::from(expanded).raw_bytes().to_vec()
}

/// A change that overwrites an operation with a number beyond 32 bits.
fn change_with_large_counter() -> Vec<u8> {
    let mut doc = AutoCommit::new();
    doc.put(ROOT, "a", 1).unwrap();
    doc.commit();
    doc.put(ROOT, "a", 2).unwrap();
    doc.commit();
    let mut expanded = doc.get_changes(&[])[1].decode();
    expanded.operations[0].pred.get_mut(0).unwrap().0 = 1 << 32;
    Change::from(expanded).raw_bytes().to_vec()
}

/// A change that puts an element of its own list behind one of another actor.
fn change_naming_a_stranger() -> Vec<u8> {
    let mut first = AutoCommit::new().with_actor(automerge::ActorId::from(vec![1u8]));
    let list = first.put_object(ROOT, "theirs", ObjType::List).unwrap();
    first.insert(&list, 0, "x").unwrap();
    let mut second = first.fork().with_actor(automerge::ActorId::from(vec![2u8]));
    let own = second.put_object(ROOT, "own", ObjType::List).unwrap();
    second.insert(&own, 0, "y").unwrap();
    second.insert(&list, 1, "z").unwrap();
    let mut expanded = second.get_last_local_change().unwrap().decode();
    expanded.operations[2].obj = expanded.operations[1].obj.clone();
    expanded.deps = Vec::new();
    Change::from(expanded).raw_bytes().to_vec()
}

#[test]
fn panics_while_applying_are_lost_tasks() {
    let mut disk = Disk::new();
    let mut store = empty_store();
    disk.create(&mut store, "a").unwrap();
    let before = disk.files.clone();
    assert!(Change::from_bytes(overflowing_change()).is_ok());
    let text = message(disk.update(&mut store, "a", overflowing_change()));
    assert!(text.starts_with("Task join error: task "), "{}", text);
    assert_eq!(disk.files, before);
    assert!(store.doc_exists("a"));
}

#[test]
fn panics_while_decoding_are_lost_tasks() {
    let mut disk = Disk::new();
    let mut store = empty_store();
    disk.create(&mut store, "a").unwrap();
    let before = disk.files.clone();
    let text = message(disk.update(&mut store, "a", change_with_large_counter()));
    assert!(text.starts_with("Task join error: task "), "{}", text);
    assert_eq!(disk.files, before);
}

#[test]
fn panics_while_loading_are_lost_tasks() {
    let mut disk = Disk::new();
    let mut store = empty_store();
    disk.create(&mut store, "a").unwrap();
    disk.files.insert("a.automerge".to_string(), overflowing_change());
    let text = message(disk.update(&mut store, "a", one_change()));
    assert!(text.starts_with("Task join error: task "), "{}", text);
}

#[test]
fn panics_while_saving_are_lost_tasks() {
    let mut disk = Disk::new();
    let mut store = empty_store();
    disk.create(&mut store, "a").unwrap();
    let before = disk.files.clone();
    let change = Change::from_bytes(change_naming_a_stranger()).unwrap();
    assert!(AutoCommit::new().apply_changes([change]).is_ok());
    let text = message(disk.update(&mut store, "a", change_naming_a_stranger()));
    assert!(text.starts_with("Task join error: task "), "{}", text);
    assert_eq!(disk.files, before);
}

#[test]
fn updates_write_what_saving_gives() {
    let mut disk = Disk::new();
    let mut store = empty_store();
    disk.create(&mut store, "a").unwrap();
    let mut expected = AutoCommit::load(&disk.files["a.automerge"]).unwrap();
    expected.apply_changes([Change::from_bytes(one_change_of(9)).unwrap()]).unwrap();
    disk.broken = "update";
    assert_eq!(
        message(disk.update(&mut store, "a", one_change_of(9))),
        "Database error: update broke"
    );
    assert_eq!(disk.files["a.automerge"], expected.save());
    disk.broken = "";
    assert_eq!(content(disk.get(&mut store, "a")), expected.save());
}

fn one_change_of(actor: u8) -> Vec<u8> {
    let mut doc = AutoCommit::new().with_actor(automerge::ActorId::from(vec![actor]));
    doc.put(ROOT, "title", "groceries").unwrap();
    doc.get_changes(&[])[0].raw_bytes().to_vec()
}

#[test]
fn a_clock_that_fails_loses_the_task() {
    let store = empty_store();
    let (task, _) = first(store.create_document("x".to_string()));
    match task.resume_timed(Ok(Vec::new()), Err("clock".to_string())) {
        Next::Stop(Completion::Failed(error)) => {
            assert_eq!(error.message(), "Task join error: clock")
        }
        _ => panic!("the task is lost"),
    }
    let (task, _) = first(store.create_document("x".to_string()));
    match task.resume_timed(Ok(Vec::new()), Ok(12)) {
        Next::Perform(_, action) => {
            assert_eq!(action, Action::InsertRow { id: "x".to_string(), last_modified: 12 })
        }
        Next::Stop(c) => panic!("{:?}", c),
    }
}

#[test]
fn only_creation_and_deletion_change_the_store() {
    assert_eq!(
        answer_unchanged(Completion::Read(vec![4])).unwrap().unwrap(),
        Reply::Content(vec![4])
    );
    assert_eq!(answer_unchanged(Completion::Updated).unwrap().unwrap(), Reply::Done);
    let failed = Completion::Failed(StoreError::Io("x".to_string()));
    assert_eq!(message(answer_unchanged(failed).unwrap()), "IO error: x");
    match answer_unchanged(Completion::Created("a".to_string())) {
        Err(Completion::Created(id)) => assert_eq!(id, "a"),
        other => panic!("{:?}", other),
    }
    match answer_unchanged(Completion::Deleted("a".to_string())) {
        Err(Completion::Deleted(id)) => assert_eq!(id, "a"),
        other => panic!("{:?}", other),
    }
}
