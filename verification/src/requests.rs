//! What each request comes to, from its start to its answer, whatever comes of
//! the outside work on the way.

use vstd::prelude::*;
use automerge::{AutoCommit, Change};
use crate::action::{ActionView, FailureView};
use crate::document::{
    apply_gave, change_hash, decode_gave, decoded_change, document_changes, is_initial_document,
    load_gave, loaded_document, lost_change, refused_change, save_gave, saved_document,
};
use crate::error::StoreErrorView;
use crate::laws::{
    law_created_document_is_stored, law_deleted_document_is_gone,
    law_updated_document_holds_change, Storage,
};
use crate::store::{
    answer_after, create_starts, delete_start, get_start, known_after, update_start, ReplyView,
    StartView,
};
use crate::task::{clock_gave, resumes_now, resumes_to, NextView};

verus! {

/// The task has ended; its request is answered so, and the store then has the
/// documents `known_now`.
pub open spec fn ends(
    known: Set<Seq<char>>,
    next: NextView,
    answer: Result<ReplyView, StoreErrorView>,
    known_now: Set<Seq<char>>,
) -> bool {
    &&& next matches NextView::Stop(completion)
    &&& answer_after(completion) == answer
    &&& known_after(known, completion) == known_now
}

/// The task has ended as a failure of file work does: the request is answered
/// with an I/O error that has the failure's text, and no document comes or goes.
pub open spec fn ends_with_file_error(
    known: Set<Seq<char>>,
    next: NextView,
    failure: FailureView,
) -> bool {
    match failure {
        FailureView::NotFound(text) => ends(known, next, Err(StoreErrorView::Io(text)), known),
        FailureView::Other(text) => ends(known, next, Err(StoreErrorView::Io(text)), known),
    }
}

/// The task has ended as a failure of the metadata table does: the request is
/// answered with a database error that has the failure's text, and no document
/// comes or goes.
pub open spec fn ends_with_row_error(
    known: Set<Seq<char>>,
    next: NextView,
    failure: FailureView,
) -> bool {
    match failure {
        FailureView::NotFound(text) => ends(
            known,
            next,
            Err(StoreErrorView::Database(text)),
            known,
        ),
        FailureView::Other(text) => ends(known, next, Err(StoreErrorView::Database(text)), known),
    }
}

/// A document is read from its own file if and only if the store has it, and
/// whatever the read gives is the answer; "not found" is answered if and only if
/// the store does not have it. Nothing is written, and no document comes or goes.
pub proof fn law_get_reads_known_document(
    known: Set<Seq<char>>,
    doc_id: Seq<char>,
    outcome: Result<Seq<u8>, FailureView>,
    now: i64,
    next: NextView,
)
    ensures
        get_start(known, doc_id) == StartView::Answer(
            Err(StoreErrorView::DocumentNotFound(doc_id)),
        ) <==> !known.contains(doc_id),
        known.contains(doc_id) ==> (get_start(known, doc_id) matches StartView::Run(task, action)
            && {
            &&& action == (ActionView::ReadFile { name: doc_id + ".automerge"@ })
            &&& resumes_to(task, outcome, now, next) ==> match outcome {
                Ok(content) => ends(known, next, Ok(ReplyView::Content(content)), known),
                Err(failure) => ends_with_file_error(known, next, failure),
            }
        }),
{
}

/// A document that the store has is never created anew; any other is: its file
/// is written with an empty document, then its row with the time, and then the
/// store has it and the request succeeds. What fails on the way is answered, and
/// then no document comes or goes.
pub proof fn law_create_adds_unknown_document(
    known: Set<Seq<char>>,
    doc_id: Seq<char>,
    start: StartView,
    written: Result<Seq<u8>, FailureView>,
    now: i64,
    next: NextView,
    inserted: Result<Seq<u8>, FailureView>,
    later: i64,
    last: NextView,
)
    requires
        create_starts(known, doc_id, start),
    ensures
        start is Answer <==> known.contains(doc_id),
        start matches StartView::Answer(answer) ==> answer == Ok::<ReplyView, StoreErrorView>(
            ReplyView::Done,
        ),
        start matches StartView::Run(task, action) ==> {
            &&& action matches ActionView::WriteFile { name, bytes }
            &&& name == doc_id + ".automerge"@
            &&& stores_empty_document(bytes)
            &&& resumes_to(task, written, now, next) ==> match written {
                Err(failure) => ends_with_file_error(known, next, failure),
                Ok(_) => next matches NextView::Perform(row_task, insert) && {
                    &&& insert == (ActionView::InsertRow { id: doc_id, last_modified: now })
                    &&& resumes_to(row_task, inserted, later, last) ==> match inserted {
                        Err(failure) => ends_with_row_error(known, last, failure),
                        Ok(_) => ends(
                            known,
                            last,
                            Ok(ReplyView::Done),
                            known.insert(doc_id),
                        ),
                    }
                },
            }
        },
{
    if let StartView::Run(task, ActionView::WriteFile { name, bytes }) = start {
        lemma_initial_document_is_empty(bytes);
    }
}

/// The bytes are what saving gives of a document without changes, and loaded
/// they give one.
pub open spec fn stores_empty_document(bytes: Seq<u8>) -> bool {
    &&& exists|doc: AutoCommit|
        document_changes(doc) == Set::<Seq<u8>>::empty() && #[trigger] saved_document(doc) == Some(
            bytes,
        )
    &&& loaded_document(bytes) matches Some(Ok((held, counts)))
    &&& held == Set::<Seq<u8>>::empty()
}

proof fn lemma_initial_document_is_empty(bytes: Seq<u8>)
    requires
        is_initial_document(bytes),
    ensures
        stores_empty_document(bytes),
{
}

/// Deleting a document that the store has removes its file, then its row, and
/// then the store has it no longer and the request succeeds; a file that is gone
/// already is no obstacle. A deletion is never answered before that work, except
/// with "not found", and so if and only if the store does not have the document.
/// What fails on the way is answered, and then no document comes or goes.
pub proof fn law_delete_removes_known_document(
    known: Set<Seq<char>>,
    doc_id: Seq<char>,
    removed: Result<Seq<u8>, FailureView>,
    now: i64,
    next: NextView,
    deleted: Result<Seq<u8>, FailureView>,
    later: i64,
    last: NextView,
)
    ensures
        delete_start(known, doc_id) == StartView::Answer(
            Err(StoreErrorView::DocumentNotFound(doc_id)),
        ) <==> !known.contains(doc_id),
        known.contains(doc_id) ==> (delete_start(known, doc_id) matches StartView::Run(task, action)
            && {
            &&& action == (ActionView::RemoveFile { name: doc_id + ".automerge"@ })
            &&& resumes_to(task, removed, now, next) ==> match removed {
                Err(FailureView::Other(text)) => ends(
                    known,
                    next,
                    Err(StoreErrorView::Io(text)),
                    known,
                ),
                _ => next matches NextView::Perform(row_task, delete) && {
                    &&& delete == (ActionView::DeleteRow { id: doc_id })
                    &&& resumes_to(row_task, deleted, later, last) ==> match deleted {
                        Err(failure) => ends_with_row_error(known, last, failure),
                        Ok(_) => ends(
                            known,
                            last,
                            Ok(ReplyView::Done),
                            known.remove(doc_id),
                        ),
                    }
                },
            }
        }),
{
}

/// The bytes are the saved form of a document that holds exactly these changes,
/// and give no others where they are loaded.
pub open spec fn stores_changes(bytes: Seq<u8>, held: Set<Seq<u8>>) -> bool {
    &&& exists|doc: AutoCommit|
        document_changes(doc) == held && #[trigger] saved_document(doc) == Some(bytes)
    &&& loaded_document(bytes) matches Some(Ok((loaded, counts))) ==> loaded == held
}

/// What an update does with the document that it has read. Bytes that Automerge
/// does not load are answered with its error, a change that does not decode is
/// told apart from one that the document refuses, and a call that panicked is
/// answered as a lost task, each with the text that the call gave. Otherwise the
/// document is written with the change beside all that it held.
pub open spec fn goes_on_with(
    known: Set<Seq<char>>,
    doc_id: Seq<char>,
    current: Seq<u8>,
    changes: Seq<u8>,
    next: NextView,
) -> bool {
    match (loaded_document(current), decoded_change(changes)) {
        (None, _) => exists|b: Vec<u8>, t: String|
            b@ == current && #[trigger] load_gave(b, Err(t)) && ends(
                known,
                next,
                Err(StoreErrorView::Join(t@)),
                known,
            ),
        (Some(Err(_)), _) => exists|b: Vec<u8>, t: String|
            b@ == current && #[trigger] load_gave(b, Ok(Err(t))) && ends(
                known,
                next,
                Err(StoreErrorView::Automerge(t@)),
                known,
            ),
        (Some(Ok(_)), None) => exists|b: Vec<u8>, t: String|
            b@ == changes && #[trigger] decode_gave(b, Err(t)) && ends(
                known,
                next,
                Err(StoreErrorView::Join(t@)),
                known,
            ),
        (Some(Ok(_)), Some(Err(text))) => ends(
            known,
            next,
            Err(StoreErrorView::InvalidChangeData(text)),
            known,
        ),
        (Some(Ok((held, counts))), Some(Ok(hash))) => match refused_change(held, counts, hash) {
            Some(text) => ends(known, next, Err(StoreErrorView::Automerge(text)), known),
            None => match next {
                NextView::Perform(task, action) => {
                    &&& action matches ActionView::WriteFile { name, bytes }
                    &&& name == doc_id + ".automerge"@
                    &&& stores_changes(bytes, held.insert(hash))
                },
                NextView::Stop(_) => {
                    ||| exists|doc: AutoCommit, change: Change, t: String|
                        document_changes(doc) == held && change_hash(change) == hash && lost_change(
                            doc,
                            change,
                        ) && #[trigger] apply_gave(doc, change, Err(t)) && ends(
                            known,
                            next,
                            Err(StoreErrorView::Join(t@)),
                            known,
                        )
                    ||| exists|doc: AutoCommit, t: String|
                        document_changes(doc) == held.insert(hash) && saved_document(doc) is None
                            && #[trigger] save_gave(doc, Err(t)) && ends(
                            known,
                            next,
                            Err(StoreErrorView::Join(t@)),
                            known,
                        )
                },
            },
        },
    }
}

/// Updating a document that the store has, with any change at all, reads its
/// file and merges exactly these bytes into what it held; the merged document is
/// written, then the row with the time, and then the request succeeds. It
/// succeeds at once if and only if there are no bytes, and is answered with "not
/// found" if and only if the store does not have the document. No document comes
/// or goes, and what fails on the way is answered.
pub proof fn law_update_merges_every_change(
    known: Set<Seq<char>>,
    doc_id: Seq<char>,
    changes: Seq<u8>,
    read: Result<Seq<u8>, FailureView>,
    at: i64,
    next: NextView,
    written: Result<Seq<u8>, FailureView>,
    now: i64,
    then: NextView,
    updated: Result<Seq<u8>, FailureView>,
    later: i64,
    last: NextView,
)
    ensures
        update_start(known, doc_id, changes) == StartView::Answer(
            Err(StoreErrorView::DocumentNotFound(doc_id)),
        ) <==> !known.contains(doc_id),
        update_start(known, doc_id, changes) == StartView::Answer(Ok(ReplyView::Done))
            <==> known.contains(doc_id) && changes.len() == 0,
        known.contains(doc_id) && changes.len() > 0 ==> (update_start(
            known,
            doc_id,
            changes,
        ) matches StartView::Run(task, action) && {
            &&& action == (ActionView::ReadFile { name: doc_id + ".automerge"@ })
            &&& resumes_to(task, read, at, next) ==> match read {
                Err(failure) => ends_with_file_error(known, next, failure),
                Ok(current) => goes_on_with(known, doc_id, current, changes, next),
            }
            &&& resumes_to(task, read, at, next) ==> (next matches NextView::Perform(
                write_task,
                write,
            ) ==> (resumes_to(write_task, written, now, then) ==> match written {
                Err(failure) => ends_with_file_error(known, then, failure),
                Ok(_) => then matches NextView::Perform(row_task, update) && {
                    &&& update == (ActionView::UpdateRow { id: doc_id, last_modified: now })
                    &&& resumes_to(row_task, updated, later, last) ==> match updated {
                        Err(failure) => ends_with_row_error(known, last, failure),
                        Ok(_) => ends(known, last, Ok(ReplyView::Done), known),
                    }
                },
            }))
        }),
{
}

/// The task goes on to this row with the time that the clock gave; or the clock
/// failed, and the request is answered with the text of that failure.
pub open spec fn goes_on_with_time(
    known: Set<Seq<char>>,
    next: NextView,
    row: spec_fn(i64) -> ActionView,
) -> bool {
    ||| exists|now: i64| #[trigger]
        clock_gave(Ok(now)) && now >= 0 && (next matches NextView::Perform(_, action) && action
            == row(now))
    ||| exists|t: String| #[trigger]
        clock_gave(Err(t)) && ends(known, next, Err(StoreErrorView::Join(t@)), known)
}

/// The time in the row of a new document is the one that the clock gave. A
/// creation whose file has been written goes on to its row, unless the clock
/// failed; then the request is answered with the text of that failure.
pub proof fn law_creation_time_is_read_from_clock(
    known: Set<Seq<char>>,
    doc_id: Seq<char>,
    start: StartView,
    written: Seq<u8>,
    next: NextView,
)
    requires
        create_starts(known, doc_id, start),
    ensures
        start matches StartView::Run(task, action) ==> (resumes_now(task, Ok(written), next)
            ==> goes_on_with_time(
            known,
            next,
            |now: i64| ActionView::InsertRow { id: doc_id, last_modified: now },
        )),
{
}

/// The time in the row of an updated document is the one that the clock gave.
/// An update whose file has been written goes on to its row, unless the clock
/// failed; then the request is answered with the text of that failure.
pub proof fn law_update_time_is_read_from_clock(
    known: Set<Seq<char>>,
    doc_id: Seq<char>,
    changes: Seq<u8>,
    current: Seq<u8>,
    merged: NextView,
    written: Seq<u8>,
    next: NextView,
)
    ensures
        update_start(known, doc_id, changes) matches StartView::Run(task, action) ==> (resumes_now(
            task,
            Ok(current),
            merged,
        ) ==> (merged matches NextView::Perform(write_task, write) ==> (resumes_now(
            write_task,
            Ok(written),
            next,
        ) ==> goes_on_with_time(
            known,
            next,
            |now: i64| ActionView::UpdateRow { id: doc_id, last_modified: now },
        )))),
{
    if let StartView::Run(task, action) = update_start(known, doc_id, changes) {
        if resumes_now(task, Ok(current), merged) {
            assert(resumes_to(task, Ok(current), 0, merged));
        }
    }
}

/// What a disk that works makes of an action: a read gives the file's content, a
/// removal finds the file, each unless there is none, and all else succeeds.
pub open spec fn works(
    s: Storage,
    action: ActionView,
    outcome: Result<Seq<u8>, FailureView>,
) -> bool {
    match action {
        ActionView::ReadFile { name } => if s.files.contains_key(name) {
            outcome == Ok::<Seq<u8>, FailureView>(s.files[name])
        } else {
            outcome matches Err(FailureView::NotFound(_))
        },
        ActionView::RemoveFile { name } => if s.files.contains_key(name) {
            outcome is Ok
        } else {
            outcome matches Err(FailureView::NotFound(_))
        },
        _ => outcome is Ok,
    }
}

/// Whatever the file of a known document holds is what a request for it answers,
/// on a disk that works, and the storage stays as it is.
pub proof fn law_get_gives_stored_content(
    known: Set<Seq<char>>,
    s: Storage,
    doc_id: Seq<char>,
    content: Seq<u8>,
    outcome: Result<Seq<u8>, FailureView>,
    now: i64,
    next: NextView,
)
    requires
        known.contains(doc_id),
        s.files.contains_key(doc_id + ".automerge"@),
        s.files[doc_id + ".automerge"@] == content,
    ensures
        get_start(known, doc_id) matches StartView::Run(task, read) && {
            &&& s.after(read) == s
            &&& works(s, read, outcome) ==> (resumes_to(task, outcome, now, next) ==> ends(
                known,
                next,
                Ok(ReplyView::Content(content)),
                known,
            ))
        },
{
    law_get_reads_known_document(known, doc_id, outcome, now, next);
}

/// On a disk that works, a document that was not known is there after it was
/// created: it is known and recorded with the time, its file holds an empty
/// document, a request for it answers that file, and no other row has changed.
pub proof fn law_created_document_can_be_read(
    known: Set<Seq<char>>,
    s: Storage,
    doc_id: Seq<char>,
    start: StartView,
    written: Result<Seq<u8>, FailureView>,
    now: i64,
    next: NextView,
    inserted: Result<Seq<u8>, FailureView>,
    later: i64,
    last: NextView,
)
    requires
        s.records(known),
        !known.contains(doc_id),
        create_starts(known, doc_id, start),
    ensures
        start matches StartView::Run(task, write) && (works(s, write, written) ==> (resumes_to(
            task,
            written,
            now,
            next,
        ) ==> (next matches NextView::Perform(row_task, insert) && (works(
            s.after(write),
            insert,
            inserted,
        ) ==> (resumes_to(row_task, inserted, later, last) ==> {
            let stored = s.after(write).after(insert);
            let name = doc_id + ".automerge"@;
            &&& ends(known, last, Ok(ReplyView::Done), known.insert(doc_id))
            &&& stored.records(known.insert(doc_id))
            &&& stored.rows.contains_key(doc_id) && stored.rows[doc_id] == now
            &&& stored.files.contains_key(name) && stores_empty_document(stored.files[name])
            &&& get_start(known.insert(doc_id), doc_id) matches StartView::Run(_, read) && read == (
            ActionView::ReadFile { name })
            &&& stored.same_but(s, doc_id)
        }))))),
{
    law_create_adds_unknown_document(
        known,
        doc_id,
        start,
        written,
        now,
        next,
        inserted,
        later,
        last,
    );
    if let StartView::Run(task, write) = start {
        if let NextView::Perform(row_task, insert) = next {
            if let NextView::Stop(completion) = last {
                if works(s, write, written) && resumes_to(task, written, now, next) && works(
                    s.after(write),
                    insert,
                    inserted,
                ) && resumes_to(row_task, inserted, later, last) {
                    law_created_document_is_stored(
                        known,
                        s,
                        doc_id,
                        task,
                        write,
                        written->Ok_0,
                        now,
                        row_task,
                        insert,
                        inserted->Ok_0,
                        later,
                        completion,
                    );
                    law_get_reads_known_document(
                        known.insert(doc_id),
                        doc_id,
                        written,
                        now,
                        next,
                    );
                    lemma_initial_document_is_empty(
                        s.after(write).after(insert).files[doc_id + ".automerge"@],
                    );
                }
            }
        }
    }
}

/// On a disk that works, a known document is gone after it was deleted: it is
/// not known, has neither row nor file, and every request for it is answered
/// with "not found"; no other row has changed.
pub proof fn law_deleted_document_cannot_be_read(
    known: Set<Seq<char>>,
    s: Storage,
    doc_id: Seq<char>,
    changes: Seq<u8>,
    removed: Result<Seq<u8>, FailureView>,
    now: i64,
    next: NextView,
    deleted: Result<Seq<u8>, FailureView>,
    later: i64,
    last: NextView,
)
    requires
        s.records(known),
        known.contains(doc_id),
    ensures
        delete_start(known, doc_id) matches StartView::Run(task, remove) && (works(
            s,
            remove,
            removed,
        ) ==> (resumes_to(task, removed, now, next) ==> (next matches NextView::Perform(
            row_task,
            delete,
        ) && (works(s.after(remove), delete, deleted) ==> (resumes_to(
            row_task,
            deleted,
            later,
            last,
        ) ==> {
            let left = s.after(remove).after(delete);
            let not_found = StartView::Answer(Err(StoreErrorView::DocumentNotFound(doc_id)));
            let known_now = known.remove(doc_id);
            &&& ends(known, last, Ok(ReplyView::Done), known_now)
            &&& left.records(known_now)
            &&& !left.rows.contains_key(doc_id)
            &&& !left.files.contains_key(doc_id + ".automerge"@)
            &&& get_start(known_now, doc_id) == not_found
            &&& update_start(known_now, doc_id, changes) == not_found
            &&& delete_start(known_now, doc_id) == not_found
            &&& left.same_but(s, doc_id)
        }))))),
{
    law_delete_removes_known_document(known, doc_id, removed, now, next, deleted, later, last);
    if let StartView::Run(task, remove) = delete_start(known, doc_id) {
        if let NextView::Perform(row_task, delete) = next {
            if let NextView::Stop(completion) = last {
                if works(s, remove, removed) && resumes_to(task, removed, now, next) && works(
                    s.after(remove),
                    delete,
                    deleted,
                ) && resumes_to(row_task, deleted, later, last) {
                    law_deleted_document_is_gone(
                        known,
                        s,
                        doc_id,
                        task,
                        remove,
                        removed,
                        now,
                        row_task,
                        delete,
                        deleted->Ok_0,
                        later,
                        completion,
                    );
                }
            }
        }
    }
}

/// On a disk that works, an update with a change that the stored document takes
/// leaves that document with the change in its file, unless a call panicked: a
/// request for it then answers a document that holds all the old changes and the
/// new one. The row has the time, and no other row has changed.
pub proof fn law_updated_document_can_be_read(
    known: Set<Seq<char>>,
    s: Storage,
    doc_id: Seq<char>,
    changes: Seq<u8>,
    held: Set<Seq<u8>>,
    counts: Map<Seq<u8>, nat>,
    hash: Seq<u8>,
    read: Result<Seq<u8>, FailureView>,
    at: i64,
    next: NextView,
    written: Result<Seq<u8>, FailureView>,
    now: i64,
    then: NextView,
    updated: Result<Seq<u8>, FailureView>,
    later: i64,
    last: NextView,
)
    requires
        s.records(known),
        known.contains(doc_id),
        changes.len() > 0,
        s.files.contains_key(doc_id + ".automerge"@),
        loaded_document(s.files[doc_id + ".automerge"@]) == Some(
            Ok::<(Set<Seq<u8>>, Map<Seq<u8>, nat>), ()>((held, counts)),
        ),
        decoded_change(changes) == Some(Ok::<Seq<u8>, Seq<char>>(hash)),
        refused_change(held, counts, hash) is None,
    ensures
        update_start(known, doc_id, changes) matches StartView::Run(task, first) && (works(
            s,
            first,
            read,
        ) ==> (resumes_to(task, read, at, next) ==> match next {
            NextView::Stop(completion) => answer_after(completion) matches Err(
                StoreErrorView::Join(_),
            ),
            NextView::Perform(write_task, write) => works(s, write, written) ==> (resumes_to(
                write_task,
                written,
                now,
                then,
            ) ==> (then matches NextView::Perform(row_task, update) && (works(
                s.after(write),
                update,
                updated,
            ) ==> (resumes_to(row_task, updated, later, last) ==> {
                let stored = s.after(write).after(update);
                let name = doc_id + ".automerge"@;
                &&& ends(known, last, Ok(ReplyView::Done), known)
                &&& stored.records(known)
                &&& stored.rows[doc_id] == now
                &&& stored.files.contains_key(name) && stores_changes(
                    stored.files[name],
                    held.insert(hash),
                )
                &&& get_start(known, doc_id) matches StartView::Run(_, action) && action == (
                ActionView::ReadFile { name })
                &&& stored.same_but(s, doc_id)
            })))),
        })),
{
    law_update_merges_every_change(
        known,
        doc_id,
        changes,
        read,
        at,
        next,
        written,
        now,
        then,
        updated,
        later,
        last,
    );
    law_get_reads_known_document(known, doc_id, read, now, next);
    if let StartView::Run(task, first) = update_start(known, doc_id, changes) {
        if let NextView::Perform(write_task, write) = next {
            if let NextView::Perform(row_task, update) = then {
                if let NextView::Stop(completion) = last {
                    if works(s, first, read) && resumes_to(task, read, at, next) && works(
                        s,
                        write,
                        written,
                    ) && resumes_to(write_task, written, now, then) && works(
                        s.after(write),
                        update,
                        updated,
                    ) && resumes_to(row_task, updated, later, last) {
                        law_updated_document_holds_change(
                            known,
                            s,
                            doc_id,
                            s.files[doc_id + ".automerge"@],
                            changes,
                            task,
                            first,
                            at,
                            write_task,
                            write,
                            written->Ok_0,
                            now,
                            row_task,
                            update,
                            updated->Ok_0,
                            later,
                            completion,
                        );
                    }
                }
            }
        }
    }
}

} // verus!
