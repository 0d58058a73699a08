//! The outside work that a request needs, and how it can fail.

use vstd::prelude::*;
use crate::error::joined;

verus! {

/// The name of the file that holds a document.
pub open spec fn file_name(doc_id: Seq<char>) -> Seq<char> {
    doc_id + ".automerge"@
}

/// The name of the file that holds the document `doc_id`, within the directory
/// of the documents: the id with the extension `.automerge`.
pub fn document_file_name(doc_id: &str) -> (name: String)
    ensures
        name@ == file_name(doc_id@),
{
    joined(doc_id, ".automerge")
}

/// One piece of outside work. Files are named within the directory of the
/// documents; rows are those of the metadata table, one for each document.
#[derive(Debug, PartialEq, Eq)]
pub enum Action {
    /// Read the whole file.
    ReadFile { name: String },
    /// Write the file with these bytes, in place of what it held.
    WriteFile { name: String, bytes: Vec<u8> },
    /// Remove the file.
    RemoveFile { name: String },
    /// Insert a row for the id; a row that is there already stays as it is.
    InsertRow { id: String, last_modified: i64 },
    /// Set the time of the last modification in the id's row, if there is one.
    UpdateRow { id: String, last_modified: i64 },
    /// Delete the id's row, if there is one.
    DeleteRow { id: String },
}

/// An [`Action`] over sequences.
pub enum ActionView {
    ReadFile { name: Seq<char> },
    WriteFile { name: Seq<char>, bytes: Seq<u8> },
    RemoveFile { name: Seq<char> },
    InsertRow { id: Seq<char>, last_modified: i64 },
    UpdateRow { id: Seq<char>, last_modified: i64 },
    DeleteRow { id: Seq<char> },
}

impl View for Action {
    type V = ActionView;

    open spec fn view(&self) -> ActionView {
        match self {
            Action::ReadFile { name } => ActionView::ReadFile { name: name@ },
            Action::WriteFile { name, bytes } => ActionView::WriteFile {
                name: name@,
                bytes: bytes@,
            },
            Action::RemoveFile { name } => ActionView::RemoveFile { name: name@ },
            Action::InsertRow { id, last_modified } => ActionView::InsertRow {
                id: id@,
                last_modified: *last_modified,
            },
            Action::UpdateRow { id, last_modified } => ActionView::UpdateRow {
                id: id@,
                last_modified: *last_modified,
            },
            Action::DeleteRow { id } => ActionView::DeleteRow { id: id@ },
        }
    }
}

/// Why a piece of outside work failed, with the text of the error.
#[derive(Debug, PartialEq, Eq)]
pub enum Failure {
    /// There is no such file.
    NotFound(String),
    /// Anything else.
    Other(String),
}

/// A [`Failure`] with its text as a sequence of characters.
pub enum FailureView {
    NotFound(Seq<char>),
    Other(Seq<char>),
}

impl View for Failure {
    type V = FailureView;

    open spec fn view(&self) -> FailureView {
        match self {
            Failure::NotFound(t) => FailureView::NotFound(t@),
            Failure::Other(t) => FailureView::Other(t@),
        }
    }
}

impl FailureView {
    /// The text of the error.
    pub open spec fn text(self) -> Seq<char> {
        match self {
            FailureView::NotFound(t) => t,
            FailureView::Other(t) => t,
        }
    }
}

impl Failure {
    /// The text of the error.
    pub fn into_text(self) -> (text: String)
        ensures
            text@ == self@.text(),
    {
        match self {
            Failure::NotFound(t) => t,
            Failure::Other(t) => t,
        }
    }
}

/// The view of what a piece of outside work gave: the bytes that a read found,
/// no bytes where nothing was to be read, or the failure.
pub open spec fn outcome_view(outcome: Result<Vec<u8>, Failure>) -> Result<Seq<u8>, FailureView> {
    match outcome {
        Ok(bytes) => Ok(bytes@),
        Err(failure) => Err(failure@),
    }
}

/// The name of a document's file is the id, all of it, and then the extension:
/// the id can be read off the name.
pub proof fn law_file_name_is_id_with_extension(doc_id: Seq<char>)
    ensures
        ".automerge"@.len() == 10,
        file_name(doc_id).len() == doc_id.len() + 10,
        file_name(doc_id).take(doc_id.len() as int) == doc_id,
        file_name(doc_id).skip(doc_id.len() as int) == ".automerge"@,
{
    reveal_strlit(".automerge");
    assert(file_name(doc_id).take(doc_id.len() as int) =~= doc_id);
    assert(file_name(doc_id).skip(doc_id.len() as int) =~= ".automerge"@);
}

/// The view of an action names the same work, on the same file or row, with the
/// same bytes or time.
pub proof fn law_action_view_is_faithful(text: String, bytes: Vec<u8>, time: i64)
    ensures
        (Action::ReadFile { name: text })@ == (ActionView::ReadFile { name: text@ }),
        (Action::WriteFile { name: text, bytes })@ == (ActionView::WriteFile {
            name: text@,
            bytes: bytes@,
        }),
        (Action::RemoveFile { name: text })@ == (ActionView::RemoveFile { name: text@ }),
        (Action::InsertRow { id: text, last_modified: time })@ == (ActionView::InsertRow {
            id: text@,
            last_modified: time,
        }),
        (Action::UpdateRow { id: text, last_modified: time })@ == (ActionView::UpdateRow {
            id: text@,
            last_modified: time,
        }),
        (Action::DeleteRow { id: text })@ == (ActionView::DeleteRow { id: text@ }),
{
}

/// The view of what came of outside work has all its bytes, or the kind of the
/// failure with all its text.
pub proof fn law_outcome_view_is_faithful(text: String, bytes: Vec<u8>)
    ensures
        outcome_view(Ok(bytes)) == Ok::<Seq<u8>, FailureView>(bytes@),
        outcome_view(Err(Failure::NotFound(text))) == Err::<Seq<u8>, FailureView>(
            FailureView::NotFound(text@),
        ),
        outcome_view(Err(Failure::Other(text))) == Err::<Seq<u8>, FailureView>(
            FailureView::Other(text@),
        ),
        Failure::NotFound(text)@.text() == text@,
        Failure::Other(text)@.text() == text@,
{
}

} // verus!
