//! The store: which documents there are, and what each request needs.

use vstd::prelude::*;
use crate::action::{document_file_name, file_name, Action, ActionView};
use crate::doc_ids::{texts, DocIds};
use crate::document::{initial_document, is_initial_document};
use crate::error::{StoreError, StoreErrorView};
use crate::startup::{startup_error, startup_error_spec, StartupFailure, StartupFailureView};
use crate::task::{Completion, CompletionView, Stage, StageView, Task, TaskView};

verus! {

/// What a request that succeeded returns.
#[derive(Debug, PartialEq, Eq)]
pub enum Reply {
    /// Nothing but the success.
    Done,
    /// The content of a document.
    Content(Vec<u8>),
}

/// A [`Reply`] over sequences.
pub enum ReplyView {
    Done,
    Content(Seq<u8>),
}

impl View for Reply {
    type V = ReplyView;

    open spec fn view(&self) -> ReplyView {
        match self {
            Reply::Done => ReplyView::Done,
            Reply::Content(bytes) => ReplyView::Content(bytes@),
        }
    }
}

/// The view of the answer to a request.
pub open spec fn answer_view(answer: Result<Reply, StoreError>) -> Result<
    ReplyView,
    StoreErrorView,
> {
    match answer {
        Ok(reply) => Ok(reply@),
        Err(error) => Err(error@),
    }
}

/// How a request begins.
pub enum Start {
    /// It is answered at once.
    Answer(Result<Reply, StoreError>),
    /// It needs outside work: perform the action and resume the task.
    Run(Task, Action),
}

/// A [`Start`] over sequences.
pub enum StartView {
    Answer(Result<ReplyView, StoreErrorView>),
    Run(TaskView, ActionView),
}

impl View for Start {
    type V = StartView;

    open spec fn view(&self) -> StartView {
        match self {
            Start::Answer(answer) => StartView::Answer(answer_view(*answer)),
            Start::Run(task, action) => StartView::Run(task@, action@),
        }
    }
}

/// The answer to a request about a document that the store does not have.
pub open spec fn not_found(doc_id: Seq<char>) -> StartView {
    StartView::Answer(Err(StoreErrorView::DocumentNotFound(doc_id)))
}

/// How the request to create a document begins: one that exists stays as it
/// is, and the file of a new one is written with an empty document.
pub open spec fn create_starts(known: Set<Seq<char>>, doc_id: Seq<char>, start: StartView) -> bool {
    if known.contains(doc_id) {
        start == StartView::Answer(Ok(ReplyView::Done))
    } else {
        match start {
            StartView::Run(task, ActionView::WriteFile { name, bytes }) => {
                &&& task == (TaskView { doc_id, stage: StageView::CreateFile })
                &&& name == file_name(doc_id)
                &&& is_initial_document(bytes)
            },
            _ => false,
        }
    }
}

/// How the request for the content of a document begins.
pub open spec fn get_start(known: Set<Seq<char>>, doc_id: Seq<char>) -> StartView {
    if known.contains(doc_id) {
        StartView::Run(
            TaskView { doc_id, stage: StageView::ReadFile },
            ActionView::ReadFile { name: file_name(doc_id) },
        )
    } else {
        not_found(doc_id)
    }
}

/// How the request to update a document begins: without changes there is
/// nothing to do, and otherwise the stored document is read.
pub open spec fn update_start(
    known: Set<Seq<char>>,
    doc_id: Seq<char>,
    changes: Seq<u8>,
) -> StartView {
    if !known.contains(doc_id) {
        not_found(doc_id)
    } else if changes.len() == 0 {
        StartView::Answer(Ok(ReplyView::Done))
    } else {
        StartView::Run(
            TaskView { doc_id, stage: StageView::UpdateRead(changes) },
            ActionView::ReadFile { name: file_name(doc_id) },
        )
    }
}

/// How the request to delete a document begins.
pub open spec fn delete_start(known: Set<Seq<char>>, doc_id: Seq<char>) -> StartView {
    if known.contains(doc_id) {
        StartView::Run(
            TaskView { doc_id, stage: StageView::DeleteFile },
            ActionView::RemoveFile { name: file_name(doc_id) },
        )
    } else {
        not_found(doc_id)
    }
}

/// The documents that the store has once a task has ended.
pub open spec fn known_after(known: Set<Seq<char>>, completion: CompletionView) -> Set<Seq<char>> {
    match completion {
        CompletionView::Created(doc_id) => known.insert(doc_id),
        CompletionView::Deleted(doc_id) => known.remove(doc_id),
        _ => known,
    }
}

/// The answer to a request whose task has ended.
pub open spec fn answer_after(completion: CompletionView) -> Result<ReplyView, StoreErrorView> {
    match completion {
        CompletionView::Read(bytes) => Ok(ReplyView::Content(bytes)),
        CompletionView::Failed(error) => Err(error),
        _ => Ok(ReplyView::Done),
    }
}

/// The rows of the metadata table were all read, and `ids` are theirs.
pub open spec fn all_read(rows: Seq<Result<String, String>>, ids: Set<Seq<char>>) -> bool {
    &&& forall|i: int| 0 <= i < rows.len() ==> (#[trigger] rows[i]) is Ok
    &&& forall|id: Seq<char>| #[trigger]
        ids.contains(id) <==> exists|i: int|
            0 <= i < rows.len() && (#[trigger] rows[i]) is Ok && rows[i]->Ok_0@ == id
}

/// The first row that could not be read failed with `text`.
pub open spec fn first_unread(rows: Seq<Result<String, String>>, text: Seq<char>) -> bool {
    exists|i: int|
        0 <= i < rows.len() && (#[trigger] rows[i]) is Err && rows[i]->Err_0@ == text && (forall|
            j: int,
        |
            0 <= j < i ==> (#[trigger] rows[j]) is Ok)
}

/// A store of documents, by the ids of those that exist.
pub struct Store {
    docs_cache: DocIds,
}

impl View for Store {
    type V = Set<Seq<char>>;

    closed spec fn view(&self) -> Set<Seq<char>> {
        self.docs_cache@
    }
}

impl Store {
    /// Opens the store with the ids that the rows of the metadata table gave,
    /// each of them read or failed; or reports why there are none.
    pub fn new(found: Result<Vec<Result<String, String>>, StartupFailure>) -> (opened: Result<
        Store,
        StoreError,
    >)
        ensures
            match found {
                Err(failure) => opened matches Err(error) && error@ == startup_error_spec(
                    failure@,
                ),
                Ok(rows) => match opened {
                    Ok(store) => all_read(rows@, store@),
                    Err(error) => error@ is Database && first_unread(rows@, error@.detail()),
                },
            },
    {
        let rows = match found {
            Ok(rows) => rows,
            Err(failure) => return Err(startup_error(failure)),
        };
        let ghost all = rows@;
        let mut docs_cache = DocIds::new();
        let mut n: usize = 0;
        while n < rows.len()
            invariant
                n <= rows@.len(),
                rows@ == all,
                found matches Ok(given) && given@ == all,
                all_read(all.take(n as int), docs_cache@),
            decreases rows@.len() - n,
        {
            let ghost before = docs_cache@;
            match &rows[n] {
                Ok(id) => {
                    docs_cache.insert(id.clone());
                    proof {
                        lemma_one_more_read(all, n as int, before, docs_cache@);
                    }
                },
                Err(text) => {
                    proof {
                        assert forall|j: int| 0 <= j < n implies (#[trigger] all[j]) is Ok by {
                            assert(all.take(n as int)[j] == all[j]);
                        }
                    }
                    assert(all[n as int] is Err && all[n as int]->Err_0@ == text@);
                    return Err(StoreError::Database(text.clone()));
                },
            }
            n += 1;
        }
        assert(all.take(n as int) =~= all);
        Ok(Store { docs_cache })
    }

    /// Whether there is a document with this id.
    pub fn doc_exists(&self, doc_id: &str) -> (exists_already: bool)
        ensures
            exists_already == self@.contains(doc_id@),
    {
        self.docs_cache.contains(doc_id)
    }

    /// Creates an empty document with this id. If there is one already, the
    /// request succeeds without changes.
    pub fn create_document(&self, doc_id: String) -> (start: Start)
        ensures
            create_starts(self@, doc_id@, start@),
    {
        if self.doc_exists(doc_id.as_str()) {
            return Start::Answer(Ok(Reply::Done));
        }
        let name = document_file_name(doc_id.as_str());
        let bytes = initial_document();
        Start::Run(Task::new(doc_id, Stage::CreateFile), Action::WriteFile { name, bytes })
    }

    /// Retrieves the content of a document.
    pub fn get_document(&self, doc_id: &str) -> (start: Start)
        ensures
            start@ == get_start(self@, doc_id@),
    {
        if !self.doc_exists(doc_id) {
            return Start::Answer(Err(StoreError::DocumentNotFound(doc_id.to_owned())));
        }
        let name = document_file_name(doc_id);
        Start::Run(Task::new(doc_id.to_owned(), Stage::ReadFile), Action::ReadFile { name })
    }

    /// Merges a change into a document. The bytes are those of one change; no
    /// bytes are no change, and there is nothing to do.
    pub fn update_document(&self, doc_id: String, changes: Vec<u8>) -> (start: Start)
        ensures
            start@ == update_start(self@, doc_id@, changes@),
    {
        if !self.doc_exists(doc_id.as_str()) {
            return Start::Answer(Err(StoreError::DocumentNotFound(doc_id)));
        }
        if changes.is_empty() {
            return Start::Answer(Ok(Reply::Done));
        }
        let name = document_file_name(doc_id.as_str());
        Start::Run(Task::new(doc_id, Stage::UpdateRead(changes)), Action::ReadFile { name })
    }

    /// The ids of all documents, each once, in no particular order. The request
    /// never fails.
    pub fn list_documents(&self) -> (listed: Result<Vec<String>, StoreError>)
        ensures
            listed matches Ok(ids) && texts(ids@).no_duplicates() && texts(ids@).to_set() == self@,
    {
        Ok(self.docs_cache.list())
    }

    /// Deletes a document and its record.
    pub fn delete_document(&self, doc_id: String) -> (start: Start)
        ensures
            start@ == delete_start(self@, doc_id@),
    {
        if !self.doc_exists(doc_id.as_str()) {
            return Start::Answer(Err(StoreError::DocumentNotFound(doc_id)));
        }
        let name = document_file_name(doc_id.as_str());
        Start::Run(Task::new(doc_id, Stage::DeleteFile), Action::RemoveFile { name })
    }

    /// Takes note of how a task ended, and answers its request: a document that
    /// was created is known from now on, one that was deleted no longer.
    pub fn complete(&mut self, completion: Completion) -> (answer: Result<Reply, StoreError>)
        ensures
            final(self)@ == known_after(old(self)@, completion@),
            answer_view(answer) == answer_after(completion@),
    {
        match completion {
            Completion::Created(doc_id) => {
                self.docs_cache.insert(doc_id);
                Ok(Reply::Done)
            },
            Completion::Read(bytes) => Ok(Reply::Content(bytes)),
            Completion::Updated => Ok(Reply::Done),
            Completion::Deleted(doc_id) => {
                self.docs_cache.remove(&doc_id);
                Ok(Reply::Done)
            },
            Completion::Failed(error) => Err(error),
        }
    }
}

/// Answers a request whose task left the known documents as they were. A task
/// that created or deleted a document is handed back, for [`Store::complete`].
pub fn answer_unchanged(completion: Completion) -> (answered: Result<
    Result<Reply, StoreError>,
    Completion,
>)
    ensures
        if completion@ is Created || completion@ is Deleted {
            answered == Err::<Result<Reply, StoreError>, Completion>(completion)
        } else {
            answered matches Ok(answer) && answer_view(answer) == answer_after(completion@)
        },
{
    match completion {
        Completion::Read(bytes) => Ok(Ok(Reply::Content(bytes))),
        Completion::Updated => Ok(Ok(Reply::Done)),
        Completion::Failed(error) => Ok(Err(error)),
        other => Err(other),
    }
}

/// One more row that was read adds its id.
proof fn lemma_one_more_read(
    rows: Seq<Result<String, String>>,
    n: int,
    before: Set<Seq<char>>,
    after: Set<Seq<char>>,
)
    requires
        0 <= n < rows.len(),
        rows[n] is Ok,
        all_read(rows.take(n), before),
        after == before.insert(rows[n]->Ok_0@),
    ensures
        all_read(rows.take(n + 1), after),
{
    let old_rows = rows.take(n);
    let new_rows = rows.take(n + 1);
    assert forall|i: int| 0 <= i < new_rows.len() implies (#[trigger] new_rows[i]) is Ok by {
        if i < n {
            assert(old_rows[i] is Ok);
        }
    }
    assert forall|id: Seq<char>| #[trigger]
        after.contains(id) <==> exists|i: int|
            0 <= i < new_rows.len() && (#[trigger] new_rows[i]) is Ok && new_rows[i]->Ok_0@
                == id by {
        if after.contains(id) {
            if id == rows[n]->Ok_0@ {
                assert(new_rows[n] is Ok);
            } else {
                assert(before.contains(id));
                let i = choose|i: int|
                    0 <= i < old_rows.len() && (#[trigger] old_rows[i]) is Ok && old_rows[i]->Ok_0@
                        == id;
                assert(new_rows[i] is Ok && new_rows[i]->Ok_0@ == id);
            }
        }
        if exists|i: int|
            0 <= i < new_rows.len() && (#[trigger] new_rows[i]) is Ok && new_rows[i]->Ok_0@ == id {
            let i = choose|i: int|
                0 <= i < new_rows.len() && (#[trigger] new_rows[i]) is Ok && new_rows[i]->Ok_0@
                    == id;
            if i < n {
                assert(old_rows[i] is Ok && old_rows[i]->Ok_0@ == id);
                assert(before.contains(id));
            }
        }
    }
}

/// The view of a store is the set of its ids.
proof fn lemma_store_view_is_its_ids(store: Store)
    ensures
        store@ == store.docs_cache@,
{
}

/// The view of how a request begins, or is answered, has all that it carries.
pub proof fn law_answer_view_is_faithful(
    bytes: Vec<u8>,
    error: StoreError,
    task: Task,
    action: Action,
    answer: Result<Reply, StoreError>,
)
    ensures
        Reply::Done@ == ReplyView::Done,
        Reply::Content(bytes)@ == ReplyView::Content(bytes@),
        answer_view(Ok(Reply::Done)) == Ok::<ReplyView, StoreErrorView>(ReplyView::Done),
        answer_view(Ok(Reply::Content(bytes))) == Ok::<ReplyView, StoreErrorView>(
            ReplyView::Content(bytes@),
        ),
        answer_view(Err(error)) == Err::<ReplyView, StoreErrorView>(error@),
        Start::Run(task, action)@ == StartView::Run(task@, action@),
        Start::Answer(answer)@ == StartView::Answer(answer_view(answer)),
{
}

/// A document comes to be known only by being created and ceases to be only by
/// being deleted; the others are not touched. A task that read, updated, created
/// or deleted a document succeeds, a read with all its bytes, and one that
/// failed is answered with its error.
pub proof fn law_completion_changes_one_document(
    known: Set<Seq<char>>,
    doc_id: Seq<char>,
    other: Seq<char>,
    bytes: Seq<u8>,
    error: StoreErrorView,
)
    ensures
        known_after(known, CompletionView::Created(doc_id)).contains(other) <==> known.contains(
            other,
        ) || other == doc_id,
        known_after(known, CompletionView::Deleted(doc_id)).contains(other) <==> known.contains(
            other,
        ) && other != doc_id,
        known_after(known, CompletionView::Read(bytes)) == known,
        known_after(known, CompletionView::Updated) == known,
        known_after(known, CompletionView::Failed(error)) == known,
        answer_after(CompletionView::Created(doc_id)) == Ok::<ReplyView, StoreErrorView>(
            ReplyView::Done,
        ),
        answer_after(CompletionView::Deleted(doc_id)) == Ok::<ReplyView, StoreErrorView>(
            ReplyView::Done,
        ),
        answer_after(CompletionView::Updated) == Ok::<ReplyView, StoreErrorView>(ReplyView::Done),
        answer_after(CompletionView::Read(bytes)) == Ok::<ReplyView, StoreErrorView>(
            ReplyView::Content(bytes),
        ),
        answer_after(CompletionView::Failed(error)) == Err::<ReplyView, StoreErrorView>(error),
{
}

/// The store opens if and only if every row was read, and then has the id of
/// each row and no other; otherwise the error is that of the first row that was
/// not read.
pub proof fn law_opening_takes_every_row(
    rows: Seq<Result<String, String>>,
    ids: Set<Seq<char>>,
    text: Seq<char>,
    i: int,
    id: Seq<char>,
)
    ensures
        all_read(rows, ids) && 0 <= i < rows.len() ==> (rows[i] matches Ok(row) && ids.contains(
            row@,
        )),
        all_read(rows, ids) && ids.contains(id) ==> exists|j: int|
            0 <= j < rows.len() && (#[trigger] rows[j] matches Ok(row) && row@ == id),
        first_unread(rows, text) && 0 <= i < rows.len() && (rows[i] matches Err(e) && e@ != text)
            ==> exists|j: int| 0 <= j < i && (#[trigger] rows[j] matches Err(e) && e@ == text),
        first_unread(rows, text) ==> exists|j: int|
            0 <= j < rows.len() && (#[trigger] rows[j] matches Err(e) && e@ == text) && forall|
                k: int,
            |
                0 <= k < j ==> (#[trigger] rows[k]) is Ok,
        !(all_read(rows, ids) && first_unread(rows, text)),
{
    if all_read(rows, ids) && 0 <= i < rows.len() {
        assert(rows[i] is Ok);
    }
}

} // verus!
