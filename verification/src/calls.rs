//! What the calls of the library return, and how the calls on one store relate.

use vstd::prelude::*;
use crate::action::{document_file_name, outcome_view, Action, Failure};
use crate::commands::{answer, greet, spawned};
use crate::doc_ids::texts;
use crate::document::{decoded_change, loaded_document, refused_change};
use crate::error::StoreError;
use crate::requests::{stores_changes, stores_empty_document};
use crate::startup::{database_file_name, documents_dir_name, startup_error, StartupFailure};
use crate::store::{Reply, Start, Store};
use crate::task::{clock_gave, resumes_now, resumes_to, Completion, Next, Task};

verus! {

/// The document is one of those listed.
pub open spec fn lists(ids: Seq<String>, doc_id: Seq<char>) -> bool {
    exists|i: int| 0 <= i < ids.len() && (#[trigger] ids[i])@ == doc_id
}

/// Listing, the test for existence and the requests agree on which documents
/// there are. Each is listed once. A listed document is read from its file,
/// updated through its file unless there is no change, and deleted beginning
/// with its file; to create it does nothing. One that is not listed is not found,
/// and can be created, as an empty document.
pub proof fn law_requests_agree_with_list(
    store: &Store,
    doc_id: &str,
    id: String,
    changes: Vec<u8>,
    listed: Result<Vec<String>, StoreError>,
    there: bool,
    got: Start,
    created: Start,
    updated: Start,
    deleted: Start,
)
    requires
        id@ == doc_id@,
        call_ensures(Store::list_documents, (store,), listed),
        call_ensures(Store::doc_exists, (store, doc_id), there),
        call_ensures(Store::get_document, (store, doc_id), got),
        call_ensures(Store::create_document, (store, id), created),
        call_ensures(Store::update_document, (store, id, changes), updated),
        call_ensures(Store::delete_document, (store, id), deleted),
    ensures
        listed matches Ok(ids) && {
            &&& forall|i: int, j: int|
                0 <= i < j < ids@.len() ==> (#[trigger] ids@[i])@ != (#[trigger] ids@[j])@
            &&& there <==> lists(ids@, doc_id@)
            &&& if lists(ids@, doc_id@) {
                &&& got matches Start::Run(_, Action::ReadFile { name }) && name@ == doc_id@
                    + ".automerge"@
                &&& deleted matches Start::Run(_, Action::RemoveFile { name }) && name@ == doc_id@
                    + ".automerge"@
                &&& created matches Start::Answer(Ok(Reply::Done))
                &&& if changes@.len() == 0 {
                    updated matches Start::Answer(Ok(Reply::Done))
                } else {
                    updated matches Start::Run(_, Action::ReadFile { name }) && name@ == doc_id@
                        + ".automerge"@
                }
            } else {
                &&& got matches Start::Answer(Err(StoreError::DocumentNotFound(missing)))
                    && missing@ == doc_id@
                &&& deleted matches Start::Answer(Err(StoreError::DocumentNotFound(missing)))
                    && missing@ == doc_id@
                &&& updated matches Start::Answer(Err(StoreError::DocumentNotFound(missing)))
                    && missing@ == doc_id@
                &&& created matches Start::Run(_, Action::WriteFile { name, bytes }) && name@
                    == doc_id@ + ".automerge"@ && stores_empty_document(bytes@)
            }
        },
{
    let ids = listed->Ok_0;
    assert forall|i: int, j: int| 0 <= i < j < ids@.len() implies (#[trigger] ids@[i])@ != (
    #[trigger] ids@[j])@ by {
        assert(texts(ids@)[i] == ids@[i]@ && texts(ids@)[j] == ids@[j]@);
    }
    assert(lists(ids@, doc_id@) <==> texts(ids@).contains(doc_id@)) by {
        if lists(ids@, doc_id@) {
            let i = choose|i: int| 0 <= i < ids@.len() && (#[trigger] ids@[i])@ == doc_id@;
            assert(texts(ids@)[i] == doc_id@);
        }
        if texts(ids@).contains(doc_id@) {
            let i = choose|i: int| 0 <= i < texts(ids@).len() && texts(ids@)[i] == doc_id@;
            assert(ids@[i]@ == doc_id@);
        }
    }
    assert(texts(ids@).contains(doc_id@) <==> store@.contains(doc_id@)) by {
        assert(texts(ids@).to_set().contains(doc_id@) <==> texts(ids@).contains(doc_id@));
    }
}

/// The task goes on to write a row, with the time that the clock gave, for which
/// `row` holds; or the clock failed, and the task ends with the text of that
/// failure.
pub open spec fn goes_on_to_row(next: Next, row: spec_fn(Action, i64) -> bool) -> bool {
    match next {
        Next::Perform(_, action) => exists|now: i64| #[trigger]
            clock_gave(Ok(now)) && now >= 0 && row(action, now),
        Next::Stop(Completion::Failed(StoreError::Join(text))) => exists|t: String|
            t@ == text@ && #[trigger] clock_gave(Err(t)),
        _ => false,
    }
}

/// A request for the content of a document comes to the bytes that were read, and
/// to nothing else where they were; otherwise to the error of the read.
pub proof fn law_get_calls(
    store: &Store,
    doc_id: &str,
    got: Start,
    outcome: Result<Vec<u8>, Failure>,
    next: Next,
)
    requires
        call_ensures(Store::get_document, (store, doc_id), got),
    ensures
        got matches Start::Run(task, action) ==> (call_ensures(Task::resume, (task, outcome), next)
            ==> match outcome {
            Ok(content) => next matches Next::Stop(Completion::Read(bytes)) && bytes@ == content@,
            Err(Failure::NotFound(text)) => next matches Next::Stop(
                Completion::Failed(StoreError::Io(told)),
            ) && told@ == text@,
            Err(Failure::Other(text)) => next matches Next::Stop(
                Completion::Failed(StoreError::Io(told)),
            ) && told@ == text@,
        }),
{
    if let Start::Run(task, action) = got {
        if call_ensures(Task::resume, (task, outcome), next) {
            assert(resumes_to(task@, outcome_view(outcome), 0, next@));
        }
    }
}

/// A creation whose file has been written goes on to insert a row for its id,
/// with the time that the clock gave, and once that is done the document is
/// created.
pub proof fn law_create_calls(
    store: &Store,
    id: String,
    created: Start,
    written: Vec<u8>,
    next: Next,
    inserted: Vec<u8>,
    last: Next,
)
    requires
        call_ensures(Store::create_document, (store, id), created),
    ensures
        created matches Start::Run(task, action) ==> (call_ensures(
            Task::resume,
            (task, Ok(written)),
            next,
        ) ==> {
            &&& goes_on_to_row(
                next,
                |row: Action, now: i64|
                    row matches Action::InsertRow { id: row_id, last_modified } && row_id@ == id@
                        && last_modified == now,
            )
            &&& next matches Next::Perform(row_task, _) ==> (call_ensures(
                Task::resume,
                (row_task, Ok(inserted)),
                last,
            ) ==> (last matches Next::Stop(Completion::Created(new_id)) && new_id@ == id@))
        }),
{
    if let Start::Run(task, action) = created {
        if call_ensures(Task::resume, (task, Ok(written)), next) {
            assert(resumes_now(task@, outcome_view(Ok(written)), next@));
            if let Next::Perform(row_task, row) = next {
                if call_ensures(Task::resume, (row_task, Ok(inserted)), last) {
                    assert(resumes_to(row_task@, outcome_view(Ok(inserted)), 0, last@));
                }
            }
        }
    }
}

/// A deletion whose file has been removed, or was gone already, goes on to delete
/// the row of its id, and once that is done the document is deleted.
pub proof fn law_delete_calls(
    store: &Store,
    id: String,
    deleted: Start,
    removed: Result<Vec<u8>, Failure>,
    next: Next,
    row_deleted: Vec<u8>,
    last: Next,
)
    requires
        call_ensures(Store::delete_document, (store, id), deleted),
    ensures
        deleted matches Start::Run(task, action) ==> (call_ensures(
            Task::resume,
            (task, removed),
            next,
        ) ==> match removed {
            Err(Failure::Other(text)) => next matches Next::Stop(
                Completion::Failed(StoreError::Io(told)),
            ) && told@ == text@,
            _ => next matches Next::Perform(row_task, Action::DeleteRow { id: row_id }) && row_id@
                == id@ && (call_ensures(Task::resume, (row_task, Ok(row_deleted)), last) ==> (
            last matches Next::Stop(Completion::Deleted(old_id)) && old_id@ == id@)),
        }),
{
    if let Start::Run(task, action) = deleted {
        if call_ensures(Task::resume, (task, removed), next) {
            assert(resumes_to(task@, outcome_view(removed), 0, next@));
            if let Next::Perform(row_task, row) = next {
                if call_ensures(Task::resume, (row_task, Ok(row_deleted)), last) {
                    assert(resumes_to(row_task@, outcome_view(Ok(row_deleted)), 0, last@));
                }
            }
        }
    }
}

/// An update merges its bytes, whatever their number, into the document that was
/// read: where the document takes the change, its file is written with all that
/// it held and the change, unless a call panicked. A file that has been written
/// is followed by the row of its id, with the time that the clock gave, and once
/// that is done the document is updated.
pub proof fn law_update_calls(
    store: &Store,
    id: String,
    changes: Vec<u8>,
    updated: Start,
    current: Vec<u8>,
    held: Set<Seq<u8>>,
    counts: Map<Seq<u8>, nat>,
    hash: Seq<u8>,
    next: Next,
    written: Vec<u8>,
    then: Next,
    row_updated: Vec<u8>,
    last: Next,
)
    requires
        call_ensures(Store::update_document, (store, id, changes), updated),
        loaded_document(current@) == Some(
            Ok::<(Set<Seq<u8>>, Map<Seq<u8>, nat>), ()>((held, counts)),
        ),
        decoded_change(changes@) == Some(Ok::<Seq<u8>, Seq<char>>(hash)),
        refused_change(held, counts, hash) is None,
    ensures
        updated matches Start::Run(task, action) ==> (call_ensures(
            Task::resume,
            (task, Ok(current)),
            next,
        ) ==> match next {
            Next::Stop(completion) => completion matches Completion::Failed(StoreError::Join(_)),
            Next::Perform(write_task, write) => {
                &&& write matches Action::WriteFile { name, bytes } && name@ == id@ + ".automerge"@
                    && stores_changes(bytes@, held.insert(hash))
                &&& call_ensures(Task::resume, (write_task, Ok(written)), then) ==> {
                    &&& goes_on_to_row(
                        then,
                        |row: Action, now: i64|
                            row matches Action::UpdateRow { id: row_id, last_modified } && row_id@
                                == id@ && last_modified == now,
                    )
                    &&& then matches Next::Perform(row_task, _) ==> (call_ensures(
                        Task::resume,
                        (row_task, Ok(row_updated)),
                        last,
                    ) ==> last matches Next::Stop(Completion::Updated))
                }
            },
        }),
{
    if let Start::Run(task, action) = updated {
        if call_ensures(Task::resume, (task, Ok(current)), next) {
            assert(resumes_to(task@, outcome_view(Ok(current)), 0, next@));
            if let Next::Perform(write_task, write) = next {
                if call_ensures(Task::resume, (write_task, Ok(written)), then) {
                    assert(resumes_now(write_task@, outcome_view(Ok(written)), then@));
                    if let Next::Perform(row_task, row) = then {
                        if call_ensures(Task::resume, (row_task, Ok(row_updated)), last) {
                            assert(resumes_to(row_task@, outcome_view(Ok(row_updated)), 0, last@));
                        }
                    }
                }
            }
        }
    }
}

/// A store opens on rows that were all read, and then has the document of each
/// row and no other; otherwise it does not open, and the error is a database
/// error with the text of a row that was not read.
pub proof fn law_opened_store_has_rows(
    rows: Vec<Result<String, String>>,
    opened: Result<Store, StoreError>,
    doc_id: &str,
    there: bool,
)
    requires
        call_ensures(Store::new, (Ok(rows),), opened),
    ensures
        opened is Ok <==> forall|i: int| 0 <= i < rows@.len() ==> (#[trigger] rows@[i]) is Ok,
        opened matches Ok(store) ==> (call_ensures(Store::doc_exists, (&store, doc_id), there) ==> (
        there <==> exists|i: int|
            0 <= i < rows@.len() && (#[trigger] rows@[i] matches Ok(id) && id@ == doc_id@))),
        opened matches Err(error) ==> (error matches StoreError::Database(text) && exists|i: int|
            0 <= i < rows@.len() && (#[trigger] rows@[i] matches Err(told) && told@ == text@)
                && forall|j: int| 0 <= j < i ==> (#[trigger] rows@[j]) is Ok),
{
}

/// A store that cannot be opened tells why.
pub proof fn law_unopened_store_tells_why(
    failure: StartupFailure,
    opened: Result<Store, StoreError>,
    reported: StoreError,
)
    requires
        call_ensures(Store::new, (Err(failure),), opened),
        call_ensures(startup_error, (failure,), reported),
    ensures
        opened matches Err(error) && error@ == reported@,
        match failure {
            StartupFailure::NoDataDir => reported matches StoreError::Other(told) && told@
                == "Failed to get application data directory"@,
            StartupFailure::CreateDir(text) => reported matches StoreError::Io(told) && told@
                == text@,
            StartupFailure::OpenDatabase(text) => reported matches StoreError::Database(told)
                && told@ == text@,
            StartupFailure::CreateTable(text) => reported matches StoreError::Database(told)
                && told@ == text@,
            StartupFailure::ReadIds(text) => reported matches StoreError::Database(told) && told@
                == text@,
        },
{
}

/// The names under which the store keeps its files.
pub proof fn law_storage_names(doc_id: &str, file: String, dir: &'static str, db: &'static str)
    requires
        call_ensures(document_file_name, (doc_id,), file),
        call_ensures(documents_dir_name, (), dir),
        call_ensures(database_file_name, (), db),
    ensures
        file@ == doc_id@ + ".automerge"@,
        dir@ == "automerge_docs"@,
        db@ == "metadata.db"@,
{
}

/// A command answers with the value of its request or with the text of the
/// error, whatever they are; the one that runs on a task of its own tells a lost
/// task as such. The text of an error is its kind's words and what it carries.
pub proof fn law_command_answers<T>(
    value: T,
    carried: String,
    error: StoreError,
    name: &str,
    greeting: String,
    kept: Result<T, String>,
    failed: Result<T, String>,
    inner: Result<T, StoreError>,
    ran: Result<T, StoreError>,
    lost: Result<T, StoreError>,
    shown: String,
)
    requires
        call_ensures(greet, (name,), greeting),
        call_ensures(answer::<T>, (Ok(value),), kept),
        call_ensures(answer::<T>, (Err(error),), failed),
        call_ensures(spawned::<T>, (Ok(inner),), ran),
        call_ensures(spawned::<T>, (Err(carried),), lost),
        call_ensures(StoreError::message, (&error,), shown),
    ensures
        greeting@ == "Hello, "@ + name@ + "! You've been greeted from Rust!"@,
        kept == Ok::<T, String>(value),
        failed matches Err(text) && text@ == shown@,
        ran == inner,
        lost matches Err(StoreError::Other(text)) && text@ == "Task join error: "@ + carried@,
        match error {
            StoreError::Io(text) => shown@ == "IO error: "@ + text@,
            StoreError::Database(text) => shown@ == "Database error: "@ + text@,
            StoreError::Automerge(text) => shown@ == "Automerge error: "@ + text@,
            StoreError::Join(text) => shown@ == "Task join error: "@ + text@,
            StoreError::DocumentNotFound(id) => shown@ == "Document not found: "@ + id@,
            StoreError::InvalidChangeData(text) => shown@ == "Invalid Automerge change data: "@
                + text@,
            StoreError::Other(text) => shown@ == "Other error: "@ + text@,
        },
{
}

} // verus!
