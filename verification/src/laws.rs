//! What holds of the store across requests, over a model of the storage that
//! the actions work on.

use vstd::prelude::*;
use crate::action::{file_name, ActionView, FailureView};
use crate::document::{
    decoded_change, held_changes, is_initial_document, merges_to, saved_form, MergeFailureView,
};
use crate::error::StoreErrorView;
use crate::store::{
    all_read, answer_after, create_starts, delete_start, get_start, known_after, not_found,
    update_start, ReplyView, StartView,
};
use crate::task::{failed, resumes_to, CompletionView, NextView, TaskView};

verus! {

/// An id whose file stands in the directory of the documents itself. An id
/// with a separator or a drive in it leads elsewhere, and may lead to the file
/// of another document: `b` and `./b` are one file.
pub open spec fn plain_id(id: Seq<char>) -> bool {
    !id.contains('/') && !id.contains('\\') && !id.contains(':')
}

/// The storage: the files, by the name that an action gives them, and the rows
/// of the metadata table, by id, with the time of the last modification. Two
/// names are taken for two files, which is so of the names of plain ids where
/// the file system tells names apart letter by letter.
#[verifier::ext_equal]
pub struct Storage {
    pub files: Map<Seq<char>, Seq<u8>>,
    pub rows: Map<Seq<char>, i64>,
}

impl Storage {
    /// The storage after an action that succeeded.
    pub open spec fn after(self, action: ActionView) -> Storage {
        match action {
            ActionView::ReadFile { name } => self,
            ActionView::WriteFile { name, bytes } => Storage {
                files: self.files.insert(name, bytes),
                ..self
            },
            ActionView::RemoveFile { name } => Storage { files: self.files.remove(name), ..self },
            ActionView::InsertRow { id, last_modified } => if self.rows.contains_key(id) {
                self
            } else {
                Storage { rows: self.rows.insert(id, last_modified), ..self }
            },
            ActionView::UpdateRow { id, last_modified } => if self.rows.contains_key(id) {
                Storage { rows: self.rows.insert(id, last_modified), ..self }
            } else {
                self
            },
            ActionView::DeleteRow { id } => Storage { rows: self.rows.remove(id), ..self },
        }
    }

    /// The storage holds the content of the document in its file.
    pub open spec fn holds(self, doc_id: Seq<char>, content: Seq<u8>) -> bool {
        self.files.contains_key(file_name(doc_id)) && self.files[file_name(doc_id)] == content
    }

    /// The known documents are exactly those with a row.
    pub open spec fn records(self, known: Set<Seq<char>>) -> bool {
        forall|id: Seq<char>| known.contains(id) <==> #[trigger] self.rows.contains_key(id)
    }

    /// Each known document with a plain id has its file.
    pub open spec fn stores(self, known: Set<Seq<char>>) -> bool {
        forall|id: Seq<char>| #[trigger]
            known.contains(id) && plain_id(id) ==> self.files.contains_key(file_name(id))
    }

    /// Every document but `doc_id` is recorded as in `other`; and if `doc_id` is
    /// plain, every other document with a plain id is stored as in `other`.
    pub open spec fn same_but(self, other: Storage, doc_id: Seq<char>) -> bool {
        &&& forall|id: Seq<char>|
            #![trigger self.rows.contains_key(id)]
            id != doc_id ==> {
                &&& self.rows.contains_key(id) == other.rows.contains_key(id)
                &&& self.rows[id] == other.rows[id]
            }
        &&& plain_id(doc_id) ==> forall|id: Seq<char>|
            #![trigger file_name(id)]
            id != doc_id && plain_id(id) ==> {
                &&& self.files.contains_key(file_name(id)) == other.files.contains_key(
                    file_name(id),
                )
                &&& self.files[file_name(id)] == other.files[file_name(id)]
            }
    }
}

/// No two documents have a file of the same name.
pub proof fn lemma_file_name_identifies_document(a: Seq<char>, b: Seq<char>)
    requires
        file_name(a) == file_name(b),
    ensures
        a == b,
{
    let n = ".automerge"@.len();
    assert(file_name(a).len() == a.len() + n && file_name(b).len() == b.len() + n);
    assert(a =~= file_name(a).take(a.len() as int));
    assert(b =~= file_name(b).take(b.len() as int));
}

/// No document has a file with the name of the metadata database.
pub proof fn lemma_no_document_in_database_file(doc_id: Seq<char>)
    ensures
        file_name(doc_id) != "metadata.db"@,
{
    reveal_strlit(".automerge");
    reveal_strlit("metadata.db");
    assert(file_name(doc_id).last() == 'e');
    assert("metadata.db"@.last() == 'b');
}

/// What actions on one document leave of the others: everything.
proof fn lemma_action_spares_others(
    first: Storage,
    s: Storage,
    action: ActionView,
    doc_id: Seq<char>,
)
    requires
        s.same_but(first, doc_id),
        match action {
            ActionView::ReadFile { name } => true,
            ActionView::WriteFile { name, bytes } => name == file_name(doc_id),
            ActionView::RemoveFile { name } => name == file_name(doc_id),
            ActionView::InsertRow { id, last_modified } => id == doc_id,
            ActionView::UpdateRow { id, last_modified } => id == doc_id,
            ActionView::DeleteRow { id } => id == doc_id,
        },
    ensures
        s.after(action).same_but(first, doc_id),
{
    assert forall|id: Seq<char>| id != doc_id implies #[trigger] file_name(id) != file_name(
        doc_id,
    ) by {
        if file_name(id) == file_name(doc_id) {
            lemma_file_name_identifies_document(id, doc_id);
        }
    }
    let after = s.after(action);
    assert forall|id: Seq<char>| #![trigger after.rows.contains_key(id)] id != doc_id implies {
        &&& after.rows.contains_key(id) == first.rows.contains_key(id)
        &&& after.rows[id] == first.rows[id]
    } by {
        assert(s.rows.contains_key(id) == first.rows.contains_key(id));
    }
}

/// Where all documents but `doc_id` are recorded as before, the rows match the
/// known documents if they do so for `doc_id`.
proof fn lemma_records(
    s: Storage,
    known: Set<Seq<char>>,
    after: Storage,
    known_now: Set<Seq<char>>,
    doc_id: Seq<char>,
)
    requires
        s.records(known),
        after.same_but(s, doc_id),
        known_now.remove(doc_id) == known.remove(doc_id),
        known_now.contains(doc_id) <==> after.rows.contains_key(doc_id),
    ensures
        after.records(known_now),
{
    assert forall|id: Seq<char>| known_now.contains(id) <==> #[trigger] after.rows.contains_key(
        id,
    ) by {
        if id != doc_id {
            assert(known_now.remove(doc_id).contains(id) <==> known_now.contains(id));
            assert(known.remove(doc_id).contains(id) <==> known.contains(id));
            assert(known.contains(id) <==> s.rows.contains_key(id));
            assert(after.rows.contains_key(id) == s.rows.contains_key(id));
        }
    }
}

/// A document that was created is known, recorded with the time at which its
/// file had been written, and stored as a document without any change; every
/// other document stays as it was.
pub proof fn law_created_document_is_stored(
    known: Set<Seq<char>>,
    s: Storage,
    doc_id: Seq<char>,
    file_task: TaskView,
    write: ActionView,
    written: Seq<u8>,
    now: i64,
    row_task: TaskView,
    insert: ActionView,
    inserted: Seq<u8>,
    later: i64,
    completion: CompletionView,
)
    requires
        s.records(known),
        !known.contains(doc_id),
        create_starts(known, doc_id, StartView::Run(file_task, write)),
        resumes_to(file_task, Ok(written), now, NextView::Perform(row_task, insert)),
        resumes_to(row_task, Ok(inserted), later, NextView::Stop(completion)),
    ensures
        ({
            let stored = s.after(write).after(insert);
            let known_now = known_after(known, completion);
            &&& answer_after(completion) == Ok::<ReplyView, StoreErrorView>(ReplyView::Done)
            &&& known_now == known.insert(doc_id)
            &&& stored.records(known_now)
            &&& s.stores(known) ==> stored.stores(known_now)
            &&& stored.files.contains_key(file_name(doc_id))
            &&& is_initial_document(stored.files[file_name(doc_id)])
            &&& stored.rows[doc_id] == now
            &&& stored.same_but(s, doc_id)
        }),
{
    lemma_action_spares_others(s, s, write, doc_id);
    lemma_action_spares_others(s, s.after(write), insert, doc_id);
    assert(completion == CompletionView::Created(doc_id));
    let stored = s.after(write).after(insert);
    assert(!s.rows.contains_key(doc_id));
    assert(known.insert(doc_id).remove(doc_id) =~= known.remove(doc_id));
    lemma_records(s, known, stored, known.insert(doc_id), doc_id);
    assert forall|id: Seq<char>|
        s.stores(known) && #[trigger] known.insert(doc_id).contains(id) && plain_id(
            id,
        ) implies stored.files.contains_key(file_name(id)) by {
        if id != doc_id {
            assert(known.contains(id));
        }
    }
}

/// The content of a document is what its file holds: a read answers it.
pub proof fn law_content_is_read_back(
    known: Set<Seq<char>>,
    s: Storage,
    doc_id: Seq<char>,
    content: Seq<u8>,
    task: TaskView,
    read: ActionView,
    now: i64,
    next: NextView,
)
    requires
        known.contains(doc_id),
        s.holds(doc_id, content),
        get_start(known, doc_id) == StartView::Run(task, read),
        resumes_to(task, Ok(content), now, next),
    ensures
        read == (ActionView::ReadFile { name: file_name(doc_id) }),
        s.after(read) == s,
        next matches NextView::Stop(completion) && {
            &&& answer_after(completion) == Ok::<ReplyView, StoreErrorView>(
                ReplyView::Content(content),
            )
            &&& known_after(known, completion) == known
        },
{
}

/// A document can be read as soon as it has been created, and holds no change;
/// to create it again does nothing and succeeds.
pub proof fn law_created_document_is_read_back(
    known: Set<Seq<char>>,
    doc_id: Seq<char>,
    s: Storage,
    file_task: TaskView,
    write: ActionView,
    insert: ActionView,
    now: i64,
    next: NextView,
    again: StartView,
)
    requires
        !known.contains(doc_id),
        create_starts(known, doc_id, StartView::Run(file_task, write)),
        insert matches ActionView::InsertRow { id, last_modified } && id == doc_id,
        ({
            let known_now = known_after(known, CompletionView::Created(doc_id));
            let stored = s.after(write).after(insert);
            &&& get_start(known_now, doc_id) matches StartView::Run(task, read)
            &&& resumes_to(task, Ok(stored.files[file_name(doc_id)]), now, next)
            &&& create_starts(known_now, doc_id, again)
        }),
    ensures
        next matches NextView::Stop(CompletionView::Read(content)) && is_initial_document(content),
        again == StartView::Answer(Ok(ReplyView::Done)),
{
}

/// A document that was deleted is no longer known, recorded or stored, and a
/// request for it is answered that it is not found; every other document stays
/// as it was. This holds where its file had gone before, as after a deletion
/// that stopped half way.
pub proof fn law_deleted_document_is_gone(
    known: Set<Seq<char>>,
    s: Storage,
    doc_id: Seq<char>,
    file_task: TaskView,
    remove: ActionView,
    removed: Result<Seq<u8>, FailureView>,
    now: i64,
    row_task: TaskView,
    delete: ActionView,
    deleted: Seq<u8>,
    later: i64,
    completion: CompletionView,
)
    requires
        s.records(known),
        delete_start(known, doc_id) == StartView::Run(file_task, remove),
        match removed {
            Ok(_) => true,
            Err(FailureView::NotFound(_)) => !s.files.contains_key(file_name(doc_id)),
            Err(FailureView::Other(_)) => false,
        },
        resumes_to(file_task, removed, now, NextView::Perform(row_task, delete)),
        resumes_to(row_task, Ok(deleted), later, NextView::Stop(completion)),
    ensures
        ({
            let left = s.after(remove).after(delete);
            let known_now = known_after(known, completion);
            &&& answer_after(completion) == Ok::<ReplyView, StoreErrorView>(ReplyView::Done)
            &&& known_now == known.remove(doc_id)
            &&& left.records(known_now)
            &&& plain_id(doc_id) && s.stores(known_now) ==> left.stores(known_now)
            &&& !left.files.contains_key(file_name(doc_id))
            &&& !left.rows.contains_key(doc_id)
            &&& left.same_but(s, doc_id)
            &&& get_start(known_now, doc_id) == not_found(doc_id)
            &&& delete_start(known_now, doc_id) == not_found(doc_id)
        }),
{
    lemma_action_spares_others(s, s, remove, doc_id);
    lemma_action_spares_others(s, s.after(remove), delete, doc_id);
    assert(completion == CompletionView::Deleted(doc_id));
    let left = s.after(remove).after(delete);
    assert(known.remove(doc_id).remove(doc_id) =~= known.remove(doc_id));
    lemma_records(s, known, left, known.remove(doc_id), doc_id);
}

/// A document that was updated is stored in the saved form of a document that
/// holds the change beside those that it held, and recorded with the time at
/// which its file had been written; every other document stays as it was, and
/// so does the list of documents. Where the new form can be loaded, it gives
/// these changes.
pub proof fn law_updated_document_holds_change(
    known: Set<Seq<char>>,
    s: Storage,
    doc_id: Seq<char>,
    before: Seq<u8>,
    changes: Seq<u8>,
    read_task: TaskView,
    read: ActionView,
    at: i64,
    write_task: TaskView,
    write: ActionView,
    written: Seq<u8>,
    now: i64,
    row_task: TaskView,
    update: ActionView,
    updated: Seq<u8>,
    later: i64,
    completion: CompletionView,
)
    requires
        s.records(known),
        s.holds(doc_id, before),
        update_start(known, doc_id, changes) == StartView::Run(read_task, read),
        resumes_to(read_task, Ok(before), at, NextView::Perform(write_task, write)),
        resumes_to(write_task, Ok(written), now, NextView::Perform(row_task, update)),
        resumes_to(row_task, Ok(updated), later, NextView::Stop(completion)),
    ensures
        ({
            let stored = s.after(read).after(write).after(update);
            let content = stored.files[file_name(doc_id)];
            &&& answer_after(completion) == Ok::<ReplyView, StoreErrorView>(ReplyView::Done)
            &&& known_after(known, completion) == known
            &&& stored.records(known)
            &&& s.stores(known) ==> stored.stores(known)
            &&& stored.holds(doc_id, content)
            &&& holds_merged(before, changes, content)
            &&& stored.rows[doc_id] == now
            &&& stored.same_but(s, doc_id)
        }),
{
    assert(s.rows.contains_key(doc_id));
    lemma_action_spares_others(s, s.after(read), write, doc_id);
    lemma_action_spares_others(s, s.after(write), update, doc_id);
    lemma_records(s, known, s.after(write).after(update), known, doc_id);
}

/// `content` is the saved form of a document that holds the changes of the one
/// stored as `before` and the one encoded by `changes`; loaded, it gives them.
pub open spec fn holds_merged(before: Seq<u8>, changes: Seq<u8>, content: Seq<u8>) -> bool {
    &&& merges_to(before, changes, Ok(content))
    &&& held_changes(before) matches Some(held) && decoded_change(changes) matches Some(
        Ok(change),
    ) && saved_form(held.insert(change), content) && (held_changes(content) matches Some(
        now_held,
    ) ==> now_held == held.insert(change))
}

/// A read after an update answers with the updated document: not with the
/// change, nor with what was stored before.
pub proof fn law_updated_document_is_read_back(
    known: Set<Seq<char>>,
    s: Storage,
    doc_id: Seq<char>,
    before: Seq<u8>,
    changes: Seq<u8>,
    read_task: TaskView,
    read: ActionView,
    at: i64,
    write_task: TaskView,
    write: ActionView,
    update: ActionView,
    now: i64,
    next: NextView,
)
    requires
        s.holds(doc_id, before),
        update_start(known, doc_id, changes) == StartView::Run(read_task, read),
        resumes_to(read_task, Ok(before), at, NextView::Perform(write_task, write)),
        update matches ActionView::UpdateRow { id, last_modified } && id == doc_id,
        ({
            let stored = s.after(read).after(write).after(update);
            &&& get_start(known_after(known, CompletionView::Updated), doc_id) matches StartView::Run(
                task,
                action,
            )
            &&& resumes_to(task, Ok(stored.files[file_name(doc_id)]), now, next)
        }),
    ensures
        next matches NextView::Stop(CompletionView::Read(content)) && holds_merged(
            before,
            changes,
            content,
        ),
{
}

/// To merge a change once more changes nothing: where the merged document can
/// be loaded, the change is not refused, and a document that comes of it holds
/// what the merged one held. Nothing but a lost task can keep it from coming.
pub proof fn law_repeated_change_is_ignored(
    current: Seq<u8>,
    changes: Seq<u8>,
    merged: Seq<u8>,
    again: Result<Seq<u8>, MergeFailureView>,
)
    requires
        merges_to(current, changes, Ok(merged)),
        held_changes(merged) is Some,
        merges_to(merged, changes, again),
    ensures
        match again {
            Ok(bytes) => {
                &&& saved_form(held_changes(merged)->0, bytes)
                &&& held_changes(bytes) is Some ==> held_changes(bytes) == held_changes(
                    merged,
                )
            },
            Err(failure) => failure is Lost,
        },
{
    let held = held_changes(current)->0;
    let change = decoded_change(changes)->0->Ok_0;
    assert(held.insert(change).insert(change) =~= held.insert(change));
}

/// A document that is not known is neither read nor updated nor deleted: each
/// request is answered at once that it is not found, whatever the changes.
pub proof fn law_unknown_document_is_refused(
    known: Set<Seq<char>>,
    doc_id: Seq<char>,
    changes: Seq<u8>,
)
    requires
        !known.contains(doc_id),
    ensures
        get_start(known, doc_id) == not_found(doc_id),
        update_start(known, doc_id, changes) == not_found(doc_id),
        delete_start(known, doc_id) == not_found(doc_id),
{
}

/// Work that failed ends its task with an error, and leaves the list of
/// documents as it was; the one exception is a file that was to be removed and
/// had gone already.
pub proof fn law_failed_work_fails_request(
    known: Set<Seq<char>>,
    task: TaskView,
    failure: FailureView,
    now: i64,
    next: NextView,
)
    requires
        !(task.stage is DeleteFile && failure is NotFound),
        resumes_to(task, Err(failure), now, next),
    ensures
        next matches NextView::Stop(completion) && {
            &&& answer_after(completion) is Err
            &&& known_after(known, completion) == known
        },
{
}

/// A task that was lost, its thread or the clock having failed it, is answered
/// with that error, and leaves the list of documents as it was.
pub proof fn law_lost_task_fails_request(known: Set<Seq<char>>, text: Seq<char>, next: NextView)
    requires
        next == failed(StoreErrorView::Join(text)),
    ensures
        next matches NextView::Stop(completion) && {
            &&& answer_after(completion) == Err::<ReplyView, StoreErrorView>(
                StoreErrorView::Join(text),
            )
            &&& known_after(known, completion) == known
        },
{
}

/// A creation that stops after its file was written, because the row could not
/// be inserted, is answered with the database's error. The known documents are
/// still those with a row, every other document stays as it was, and the file
/// is left behind with a document without any change.
pub proof fn law_interrupted_create_keeps_records(
    known: Set<Seq<char>>,
    s: Storage,
    doc_id: Seq<char>,
    file_task: TaskView,
    write: ActionView,
    written: Seq<u8>,
    now: i64,
    row_task: TaskView,
    insert: ActionView,
    failure: FailureView,
    later: i64,
    completion: CompletionView,
)
    requires
        s.records(known),
        create_starts(known, doc_id, StartView::Run(file_task, write)),
        resumes_to(file_task, Ok(written), now, NextView::Perform(row_task, insert)),
        resumes_to(row_task, Err(failure), later, NextView::Stop(completion)),
    ensures
        ({
            let left = s.after(write);
            &&& answer_after(completion) == Err::<ReplyView, StoreErrorView>(
                StoreErrorView::Database(failure.text()),
            )
            &&& known_after(known, completion) == known
            &&& left.records(known)
            &&& s.stores(known) ==> left.stores(known)
            &&& left.files.contains_key(file_name(doc_id))
            &&& is_initial_document(left.files[file_name(doc_id)])
            &&& left.same_but(s, doc_id)
        }),
{
    lemma_action_spares_others(s, s, write, doc_id);
    assert(s.after(write).rows == s.rows);
}

/// An update that stops after the merged document was written, because the row
/// could not be updated, is answered with the database's error. The known
/// documents are still those with a row, every other document stays as it was,
/// and the merged document stays in its file.
pub proof fn law_interrupted_update_keeps_records(
    known: Set<Seq<char>>,
    s: Storage,
    doc_id: Seq<char>,
    before: Seq<u8>,
    changes: Seq<u8>,
    read_task: TaskView,
    read: ActionView,
    at: i64,
    write_task: TaskView,
    write: ActionView,
    written: Seq<u8>,
    now: i64,
    row_task: TaskView,
    update: ActionView,
    failure: FailureView,
    later: i64,
    completion: CompletionView,
)
    requires
        s.records(known),
        s.holds(doc_id, before),
        update_start(known, doc_id, changes) == StartView::Run(read_task, read),
        resumes_to(read_task, Ok(before), at, NextView::Perform(write_task, write)),
        resumes_to(write_task, Ok(written), now, NextView::Perform(row_task, update)),
        resumes_to(row_task, Err(failure), later, NextView::Stop(completion)),
    ensures
        ({
            let left = s.after(read).after(write);
            let content = left.files[file_name(doc_id)];
            &&& answer_after(completion) == Err::<ReplyView, StoreErrorView>(
                StoreErrorView::Database(failure.text()),
            )
            &&& known_after(known, completion) == known
            &&& left.rows == s.rows
            &&& left.records(known)
            &&& s.stores(known) ==> left.stores(known)
            &&& left.holds(doc_id, content)
            &&& holds_merged(before, changes, content)
            &&& left.same_but(s, doc_id)
        }),
{
    lemma_action_spares_others(s, s.after(read), write, doc_id);
    assert(s.after(write).rows == s.rows);
}

/// A deletion that stops after its file was removed, because the row could not
/// be deleted, is answered with the database's error. The known documents are
/// still those with a row, and every other document stays as it was. To delete
/// the document again, its file being gone, succeeds.
pub proof fn law_interrupted_delete_can_be_repeated(
    known: Set<Seq<char>>,
    s: Storage,
    doc_id: Seq<char>,
    file_task: TaskView,
    remove: ActionView,
    removed: Seq<u8>,
    now: i64,
    row_task: TaskView,
    delete: ActionView,
    failure: FailureView,
    later: i64,
    completion: CompletionView,
    missing: Seq<char>,
    next: NextView,
    deleted: Seq<u8>,
    last: NextView,
)
    requires
        s.records(known),
        delete_start(known, doc_id) == StartView::Run(file_task, remove),
        resumes_to(file_task, Ok(removed), now, NextView::Perform(row_task, delete)),
        resumes_to(row_task, Err(failure), later, NextView::Stop(completion)),
        delete_start(known_after(known, completion), doc_id) matches StartView::Run(again, action)
            && resumes_to(again, Err(FailureView::NotFound(missing)), later, next),
        next matches NextView::Perform(task, action) && resumes_to(task, Ok(deleted), later, last),
    ensures
        ({
            let left = s.after(remove);
            &&& answer_after(completion) == Err::<ReplyView, StoreErrorView>(
                StoreErrorView::Database(failure.text()),
            )
            &&& known_after(known, completion) == known
            &&& left.records(known)
            &&& !left.files.contains_key(file_name(doc_id))
            &&& left.same_but(s, doc_id)
            &&& next == NextView::Perform(row_task, delete)
            &&& last == NextView::Stop(CompletionView::Deleted(doc_id))
            &&& left.after(remove).after(delete).records(known.remove(doc_id))
            &&& left.after(remove).after(delete).same_but(s, doc_id)
        }),
{
    lemma_action_spares_others(s, s, remove, doc_id);
    let left = s.after(remove);
    assert(left.rows == s.rows);
    lemma_action_spares_others(s, left, remove, doc_id);
    lemma_action_spares_others(s, left.after(remove), delete, doc_id);
    assert(known.remove(doc_id).remove(doc_id) =~= known.remove(doc_id));
    lemma_records(s, known, left.after(remove).after(delete), known.remove(doc_id), doc_id);
}

/// A store that is opened on the rows of the metadata table knows the
/// documents that were known before.
pub proof fn law_reopened_store_knows_documents(
    known: Set<Seq<char>>,
    s: Storage,
    rows: Seq<Result<String, String>>,
    ids: Set<Seq<char>>,
)
    requires
        s.records(known),
        forall|id: Seq<char>| #[trigger]
            s.rows.contains_key(id) <==> exists|i: int|
                0 <= i < rows.len() && (#[trigger] rows[i]) is Ok && rows[i]->Ok_0@ == id,
        all_read(rows, ids),
    ensures
        ids == known,
{
    assert forall|id: Seq<char>| ids.contains(id) <==> known.contains(id) by {
        assert(known.contains(id) <==> s.rows.contains_key(id));
    }
    assert(ids =~= known);
}

} // verus!
