//! A request that needs outside work, step by step.

use vstd::prelude::*;
use std::future::{poll_fn, Future};
use std::pin::Pin;
use std::task::{Context, Poll, Waker};
use tokio::task::{unconstrained, LocalSet};
use crate::action::{
    document_file_name, file_name, outcome_view, Action, ActionView, Failure, FailureView,
};
use crate::document::{
    merge_changes, merge_error, merge_error_spec, merged_view, merges_to, MergeFailure,
    MergeFailureView,
};
use crate::error::{StoreError, StoreErrorView};

verus! {

/// The outside work that a task waits for.
pub enum Stage {
    CreateFile,
    CreateRow,
    ReadFile,
    UpdateRead(Vec<u8>),
    UpdateWrite,
    UpdateRow,
    DeleteFile,
    DeleteRow,
}

/// A [`Stage`] over sequences; an update that waits for the document carries
/// the change to be merged into it.
pub enum StageView {
    CreateFile,
    CreateRow,
    ReadFile,
    UpdateRead(Seq<u8>),
    UpdateWrite,
    UpdateRow,
    DeleteFile,
    DeleteRow,
}

impl View for Stage {
    type V = StageView;

    open spec fn view(&self) -> StageView {
        match self {
            Stage::CreateFile => StageView::CreateFile,
            Stage::CreateRow => StageView::CreateRow,
            Stage::ReadFile => StageView::ReadFile,
            Stage::UpdateRead(changes) => StageView::UpdateRead(changes@),
            Stage::UpdateWrite => StageView::UpdateWrite,
            Stage::UpdateRow => StageView::UpdateRow,
            Stage::DeleteFile => StageView::DeleteFile,
            Stage::DeleteRow => StageView::DeleteRow,
        }
    }
}

/// A request under way: the document it is about, and what it waits for.
pub struct Task {
    doc_id: String,
    stage: Stage,
}

/// A [`Task`] over sequences.
pub struct TaskView {
    pub doc_id: Seq<char>,
    pub stage: StageView,
}

impl View for Task {
    type V = TaskView;

    closed spec fn view(&self) -> TaskView {
        TaskView { doc_id: self.doc_id@, stage: self.stage@ }
    }
}

/// How a task ended.
#[derive(Debug)]
pub enum Completion {
    /// The document has been stored and recorded.
    Created(String),
    /// The content of the document.
    Read(Vec<u8>),
    /// The document has been stored in its new form.
    Updated,
    /// The document and its record are gone.
    Deleted(String),
    /// The request failed.
    Failed(StoreError),
}

/// A [`Completion`] over sequences.
pub enum CompletionView {
    Created(Seq<char>),
    Read(Seq<u8>),
    Updated,
    Deleted(Seq<char>),
    Failed(StoreErrorView),
}

impl View for Completion {
    type V = CompletionView;

    open spec fn view(&self) -> CompletionView {
        match self {
            Completion::Created(id) => CompletionView::Created(id@),
            Completion::Read(bytes) => CompletionView::Read(bytes@),
            Completion::Updated => CompletionView::Updated,
            Completion::Deleted(id) => CompletionView::Deleted(id@),
            Completion::Failed(error) => CompletionView::Failed(error@),
        }
    }
}

impl Completion {
    /// The end of a task that was lost: the thread that ran it panicked or was
    /// cancelled.
    pub fn join_failed(text: String) -> (completion: Completion)
        ensures
            completion@ == CompletionView::Failed(StoreErrorView::Join(text@)),
    {
        Completion::Failed(StoreError::Join(text))
    }
}

/// What a task does next.
pub enum Next {
    /// Perform this, and resume the task with what came of it.
    Perform(Task, Action),
    /// The task has ended.
    Stop(Completion),
}

/// A [`Next`] over sequences.
pub enum NextView {
    Perform(TaskView, ActionView),
    Stop(CompletionView),
}

impl View for Next {
    type V = NextView;

    open spec fn view(&self) -> NextView {
        match self {
            Next::Perform(task, action) => NextView::Perform(task@, action@),
            Next::Stop(completion) => NextView::Stop(completion@),
        }
    }
}

/// A task that fails with `error`.
pub open spec fn failed(error: StoreErrorView) -> NextView {
    NextView::Stop(CompletionView::Failed(error))
}

/// A task that goes on to write a merged document, or fails as the merge did.
pub open spec fn merged_next(
    doc_id: Seq<char>,
    merged: Result<Seq<u8>, MergeFailureView>,
) -> NextView {
    match merged {
        Ok(bytes) => NextView::Perform(
            TaskView { doc_id, stage: StageView::UpdateWrite },
            ActionView::WriteFile { name: file_name(doc_id), bytes },
        ),
        Err(failure) => failed(merge_error_spec(failure)),
    }
}

/// `next` is what an update does with the document stored as `current`: what
/// comes of merging the change into it is written, or fails the task.
pub open spec fn merge_resumes_to(
    doc_id: Seq<char>,
    current: Seq<u8>,
    changes: Seq<u8>,
    next: NextView,
) -> bool {
    exists|merged: Result<Seq<u8>, MergeFailureView>|
        #![trigger merged_next(doc_id, merged)]
        merges_to(current, changes, merged) && next == merged_next(doc_id, merged)
}

/// `next` is what a task does after its outside work gave `outcome`, at the
/// time `now`. A file that could not be read or written fails the task with an
/// I/O error, a row with a database error; a file that was to be removed may
/// be gone already. A document is written before its row is, and removed
/// before its row is.
pub open spec fn resumes_to(
    task: TaskView,
    outcome: Result<Seq<u8>, FailureView>,
    now: i64,
    next: NextView,
) -> bool {
    let doc_id = task.doc_id;
    match task.stage {
        StageView::CreateFile => match outcome {
            Ok(_) => next == NextView::Perform(
                TaskView { doc_id, stage: StageView::CreateRow },
                ActionView::InsertRow { id: doc_id, last_modified: now },
            ),
            Err(failure) => next == failed(StoreErrorView::Io(failure.text())),
        },
        StageView::CreateRow => match outcome {
            Ok(_) => next == NextView::Stop(CompletionView::Created(doc_id)),
            Err(failure) => next == failed(StoreErrorView::Database(failure.text())),
        },
        StageView::ReadFile => match outcome {
            Ok(bytes) => next == NextView::Stop(CompletionView::Read(bytes)),
            Err(failure) => next == failed(StoreErrorView::Io(failure.text())),
        },
        StageView::UpdateRead(changes) => match outcome {
            Ok(current) => merge_resumes_to(doc_id, current, changes, next),
            Err(failure) => next == failed(StoreErrorView::Io(failure.text())),
        },
        StageView::UpdateWrite => match outcome {
            Ok(_) => next == NextView::Perform(
                TaskView { doc_id, stage: StageView::UpdateRow },
                ActionView::UpdateRow { id: doc_id, last_modified: now },
            ),
            Err(failure) => next == failed(StoreErrorView::Io(failure.text())),
        },
        StageView::UpdateRow => match outcome {
            Ok(_) => next == NextView::Stop(CompletionView::Updated),
            Err(failure) => next == failed(StoreErrorView::Database(failure.text())),
        },
        StageView::DeleteFile => match outcome {
            Err(FailureView::Other(text)) => next == failed(StoreErrorView::Io(text)),
            _ => next == NextView::Perform(
                TaskView { doc_id, stage: StageView::DeleteRow },
                ActionView::DeleteRow { id: doc_id },
            ),
        },
        StageView::DeleteRow => match outcome {
            Ok(_) => next == NextView::Stop(CompletionView::Deleted(doc_id)),
            Err(failure) => next == failed(StoreErrorView::Database(failure.text())),
        },
    }
}

/// A task that goes on to write a row with the time: its file has been written.
pub open spec fn records_time(task: TaskView, outcome: Result<Seq<u8>, FailureView>) -> bool {
    outcome is Ok && (task.stage is CreateFile || task.stage is UpdateWrite)
}

/// Calls `chrono::Utc::now` and `DateTime::timestamp_millis` on a task of its
/// own: the milliseconds since the start of 1970, read from the system clock,
/// or the text with which `tokio` reports a call that panicked. The crate counts
/// from that moment on, so the time is never negative, and panics where the
/// clock stands before it; nothing else is said.
#[verifier::external_body]
fn now_millis() -> (now: Result<i64, String>)
    ensures
        now matches Ok(millis) ==> millis >= 0,
{
    let mut tasks = LocalSet::new();
    let call = tasks.spawn_local(
        poll_fn(|_| Poll::Ready(chrono::Utc::now().timestamp_millis())),
    );
    let mut context = Context::from_waker(Waker::noop());
    let _ = Pin::new(&mut tasks).poll(&mut context);
    match Pin::new(&mut unconstrained(call)).poll(&mut context) {
        Poll::Ready(done) => done.map_err(|lost| lost.to_string()),
        // Not reached: the task waits for nothing, so the first poll ends it.
        Poll::Pending => Err(String::new()),
    }
}

/// `clock` is what a reading of the clock gave: the time in milliseconds since
/// the start of 1970, or the text of the failure.
pub closed spec fn clock_gave(clock: Result<i64, String>) -> bool {
    call_ensures(now_millis, (), clock)
}

/// Nothing but a call of [`now_millis`] gives a reading of the clock.
proof fn lemma_only_the_clock_gives_readings(clock: Result<i64, String>)
    ensures
        clock_gave(clock) <==> call_ensures(now_millis, (), clock),
{
}

/// `next` is what a task does after its outside work gave `outcome`, with the
/// clock at hand. Where a row is to be written, the time in it is the one that
/// the clock gave, and the task fails only if the clock did, with its text;
/// elsewhere the time plays no part.
pub open spec fn resumes_now(
    task: TaskView,
    outcome: Result<Seq<u8>, FailureView>,
    next: NextView,
) -> bool {
    if records_time(task, outcome) {
        exists|clock: Result<i64, String>| #[trigger]
            clock_gave(clock) && match clock {
                Ok(now) => now >= 0 && resumes_to(task, outcome, now, next),
                Err(text) => next == failed(StoreErrorView::Join(text@)),
            }
    } else {
        forall|now: i64| #[trigger] resumes_to(task, outcome, now, next)
    }
}

/// Goes on with an update after the merge: the merged document is written over
/// the old one, and a merge that stopped ends the task.
pub fn write_merged(doc_id: String, merged: Result<Vec<u8>, MergeFailure>) -> (next: Next)
    ensures
        next@ == merged_next(doc_id@, merged_view(merged)),
{
    match merged {
        Ok(bytes) => {
            let name = document_file_name(doc_id.as_str());
            Next::Perform(
                Task { doc_id, stage: Stage::UpdateWrite },
                Action::WriteFile { name, bytes },
            )
        },
        Err(failure) => Next::Stop(Completion::Failed(merge_error(failure))),
    }
}

fn file_failed(failure: Failure) -> (next: Next)
    ensures
        next@ == failed(StoreErrorView::Io(failure@.text())),
{
    Next::Stop(Completion::Failed(StoreError::Io(failure.into_text())))
}

fn row_failed(failure: Failure) -> (next: Next)
    ensures
        next@ == failed(StoreErrorView::Database(failure@.text())),
{
    Next::Stop(Completion::Failed(StoreError::Database(failure.into_text())))
}

impl Task {
    /// A task about the document `doc_id` that waits at `stage`.
    pub(crate) fn new(doc_id: String, stage: Stage) -> (task: Task)
        ensures
            task@ == (TaskView { doc_id: doc_id@, stage: stage@ }),
    {
        Task { doc_id, stage }
    }

    /// Resumes the task with what came of its outside work. The bytes are
    /// those that a read found; for other work they are not looked at. A row is
    /// written with the present time. The clock is read for that alone, and
    /// where it fails, so does the task.
    pub fn resume(self, outcome: Result<Vec<u8>, Failure>) -> (next: Next)
        ensures
            resumes_now(self@, outcome_view(outcome), next@),
    {
        let timed = match self.stage {
            Stage::CreateFile | Stage::UpdateWrite => outcome.is_ok(),
            _ => false,
        };
        if timed {
            let clock = now_millis();
            assert(clock_gave(clock));
            self.resume_timed(outcome, clock)
        } else {
            self.resume_at(outcome, 0)
        }
    }

    /// Resumes the task as [`Task::resume_at`] does, at the time that the clock
    /// gave; or fails it with the text of the clock's failure.
    pub fn resume_timed(
        self,
        outcome: Result<Vec<u8>, Failure>,
        clock: Result<i64, String>,
    ) -> (next: Next)
        ensures
            match clock {
                Ok(now) => resumes_to(self@, outcome_view(outcome), now, next@),
                Err(text) => next@ == failed(StoreErrorView::Join(text@)),
            },
    {
        match clock {
            Ok(now) => self.resume_at(outcome, now),
            Err(text) => Next::Stop(Completion::join_failed(text)),
        }
    }

    /// Resumes the task with what came of its outside work, at the time `now`, in
    /// milliseconds since the start of 1970.
    pub fn resume_at(self, outcome: Result<Vec<u8>, Failure>, now: i64) -> (next: Next)
        ensures
            resumes_to(self@, outcome_view(outcome), now, next@),
    {
        let Task { doc_id, stage } = self;
        match stage {
            Stage::CreateFile => match outcome {
                Ok(_) => Next::Perform(
                    Task { doc_id: doc_id.clone(), stage: Stage::CreateRow },
                    Action::InsertRow { id: doc_id, last_modified: now },
                ),
                Err(failure) => file_failed(failure),
            },
            Stage::CreateRow => match outcome {
                Ok(_) => Next::Stop(Completion::Created(doc_id)),
                Err(failure) => row_failed(failure),
            },
            Stage::ReadFile => match outcome {
                Ok(bytes) => Next::Stop(Completion::Read(bytes)),
                Err(failure) => file_failed(failure),
            },
            Stage::UpdateRead(changes) => match outcome {
                Ok(current) => {
                    let merged = merge_changes(current, changes);
                    write_merged(doc_id, merged)
                },
                Err(failure) => file_failed(failure),
            },
            Stage::UpdateWrite => match outcome {
                Ok(_) => Next::Perform(
                    Task { doc_id: doc_id.clone(), stage: Stage::UpdateRow },
                    Action::UpdateRow { id: doc_id, last_modified: now },
                ),
                Err(failure) => file_failed(failure),
            },
            Stage::UpdateRow => match outcome {
                Ok(_) => Next::Stop(Completion::Updated),
                Err(failure) => row_failed(failure),
            },
            Stage::DeleteFile => match outcome {
                Err(Failure::Other(text)) => Next::Stop(Completion::Failed(StoreError::Io(text))),
                _ => Next::Perform(
                    Task { doc_id: doc_id.clone(), stage: Stage::DeleteRow },
                    Action::DeleteRow { id: doc_id },
                ),
            },
            Stage::DeleteRow => match outcome {
                Ok(_) => Next::Stop(Completion::Deleted(doc_id)),
                Err(failure) => row_failed(failure),
            },
        }
    }
}

/// The view of a task has its document and its stage.
proof fn lemma_task_view_is_faithful(task: Task, changes: Vec<u8>)
    ensures
        task@.doc_id == task.doc_id@,
        task@.stage == task.stage@,
        Stage::UpdateRead(changes)@ == StageView::UpdateRead(changes@),
{
}

/// The view of how a task ended, or goes on, has all that it carries.
pub proof fn law_completion_view_is_faithful(
    doc_id: String,
    bytes: Vec<u8>,
    error: StoreError,
    task: Task,
    action: Action,
    completion: Completion,
)
    ensures
        Completion::Created(doc_id)@ == CompletionView::Created(doc_id@),
        Completion::Read(bytes)@ == CompletionView::Read(bytes@),
        Completion::Updated@ == CompletionView::Updated,
        Completion::Deleted(doc_id)@ == CompletionView::Deleted(doc_id@),
        Completion::Failed(error)@ == CompletionView::Failed(error@),
        Next::Perform(task, action)@ == NextView::Perform(task@, action@),
        Next::Stop(completion)@ == NextView::Stop(completion@),
{
}

/// The clock bears on nothing but the time in a row. A task resumed with it does
/// what it would do at any time; or it has written its file, and goes on to a
/// row with the time that the clock gave, or the clock failed and it ends with
/// the text of that failure.
pub proof fn law_clock_bears_on_rows_alone(
    task: TaskView,
    outcome: Result<Seq<u8>, FailureView>,
    now: i64,
    next: NextView,
)
    requires
        resumes_now(task, outcome, next),
    ensures
        resumes_to(task, outcome, now, next) || {
            &&& outcome is Ok
            &&& task.stage is CreateFile || task.stage is UpdateWrite
            &&& match next {
                NextView::Perform(
                    _,
                    ActionView::InsertRow { id, last_modified },
                ) => task.stage is CreateFile && id == task.doc_id && clock_gave(
                    Ok(last_modified),
                ),
                NextView::Perform(
                    _,
                    ActionView::UpdateRow { id, last_modified },
                ) => task.stage is UpdateWrite && id == task.doc_id && clock_gave(
                    Ok(last_modified),
                ),
                NextView::Stop(CompletionView::Failed(StoreErrorView::Join(text))) => exists|
                    t: String,
                |
                    t@ == text && #[trigger] clock_gave(Err(t)),
                _ => false,
            }
        },
{
}

} // verus!
