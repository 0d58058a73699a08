//! The errors of the store and their texts.

use vstd::prelude::*;

verus! {

/// What went wrong while a request was served.
#[derive(Debug)]
pub enum StoreError {
    /// A file could not be read, written or removed, or the data directory created.
    Io(String),
    /// The metadata database refused a statement.
    Database(String),
    /// Automerge refused a stored document or a change to it.
    Automerge(String),
    /// The task that served the request ended before it had a result.
    Join(String),
    /// The store has no document with this id.
    DocumentNotFound(String),
    /// The bytes received are not an Automerge change.
    InvalidChangeData(String),
    /// Anything else.
    Other(String),
}

/// A [`StoreError`] with its text as a sequence of characters.
pub enum StoreErrorView {
    Io(Seq<char>),
    Database(Seq<char>),
    Automerge(Seq<char>),
    Join(Seq<char>),
    DocumentNotFound(Seq<char>),
    InvalidChangeData(Seq<char>),
    Other(Seq<char>),
}

impl View for StoreError {
    type V = StoreErrorView;

    open spec fn view(&self) -> StoreErrorView {
        match self {
            StoreError::Io(t) => StoreErrorView::Io(t@),
            StoreError::Database(t) => StoreErrorView::Database(t@),
            StoreError::Automerge(t) => StoreErrorView::Automerge(t@),
            StoreError::Join(t) => StoreErrorView::Join(t@),
            StoreError::DocumentNotFound(t) => StoreErrorView::DocumentNotFound(t@),
            StoreError::InvalidChangeData(t) => StoreErrorView::InvalidChangeData(t@),
            StoreError::Other(t) => StoreErrorView::Other(t@),
        }
    }
}

impl StoreErrorView {
    /// The words that say what kind of error it is.
    pub open spec fn heading(self) -> Seq<char> {
        match self {
            StoreErrorView::Io(_) => "IO error: "@,
            StoreErrorView::Database(_) => "Database error: "@,
            StoreErrorView::Automerge(_) => "Automerge error: "@,
            StoreErrorView::Join(_) => "Task join error: "@,
            StoreErrorView::DocumentNotFound(_) => "Document not found: "@,
            StoreErrorView::InvalidChangeData(_) => "Invalid Automerge change data: "@,
            StoreErrorView::Other(_) => "Other error: "@,
        }
    }

    /// What the error carries: the text of the failure, or the id that was not found.
    pub open spec fn detail(self) -> Seq<char> {
        match self {
            StoreErrorView::Io(t) => t,
            StoreErrorView::Database(t) => t,
            StoreErrorView::Automerge(t) => t,
            StoreErrorView::Join(t) => t,
            StoreErrorView::DocumentNotFound(t) => t,
            StoreErrorView::InvalidChangeData(t) => t,
            StoreErrorView::Other(t) => t,
        }
    }

    /// The text shown for the error.
    pub open spec fn message(self) -> Seq<char> {
        self.heading() + self.detail()
    }
}

/// `a` followed by `b`.
pub(crate) fn joined(a: &str, b: &str) -> (text: String)
    ensures
        text@ == a@ + b@,
{
    let mut text = a.to_owned();
    text.append(b);
    text
}

impl StoreError {
    /// The text shown for the error: its kind, a colon, and what it carries.
    pub fn message(&self) -> (text: String)
        ensures
            text@ == self@.message(),
    {
        match self {
            StoreError::Io(t) => joined("IO error: ", t.as_str()),
            StoreError::Database(t) => joined("Database error: ", t.as_str()),
            StoreError::Automerge(t) => joined("Automerge error: ", t.as_str()),
            StoreError::Join(t) => joined("Task join error: ", t.as_str()),
            StoreError::DocumentNotFound(t) => joined("Document not found: ", t.as_str()),
            StoreError::InvalidChangeData(t) => joined(
                "Invalid Automerge change data: ",
                t.as_str(),
            ),
            StoreError::Other(t) => joined("Other error: ", t.as_str()),
        }
    }
}

/// Two errors with the same text are the same error: no two kinds share a
/// text, whatever they carry.
pub proof fn lemma_message_identifies_error(a: StoreErrorView, b: StoreErrorView)
    requires
        a.message() == b.message(),
    ensures
        a == b,
{
    reveal_strlit("IO error: ");
    reveal_strlit("Database error: ");
    reveal_strlit("Automerge error: ");
    reveal_strlit("Task join error: ");
    reveal_strlit("Document not found: ");
    reveal_strlit("Invalid Automerge change data: ");
    reveal_strlit("Other error: ");
    let n = a.heading().len() as int;
    assert(a.message()[0] == a.heading()[0] && a.message()[1] == a.heading()[1]);
    assert(b.message()[0] == b.heading()[0] && b.message()[1] == b.heading()[1]);
    assert(a.heading() == b.heading());
    assert(a.detail() =~= a.message().subrange(n, a.message().len() as int));
    assert(b.detail() =~= b.message().subrange(n, b.message().len() as int));
}

/// The text shown for an error is that of its kind, in these words, followed by
/// all that the error carries, whatever that is.
pub proof fn law_message_tells_kind_and_detail(carried: String)
    ensures
        StoreError::Io(carried)@.message() == "IO error: "@ + carried@,
        StoreError::Database(carried)@.message() == "Database error: "@ + carried@,
        StoreError::Automerge(carried)@.message() == "Automerge error: "@ + carried@,
        StoreError::Join(carried)@.message() == "Task join error: "@ + carried@,
        StoreError::DocumentNotFound(carried)@.message() == "Document not found: "@ + carried@,
        StoreError::InvalidChangeData(carried)@.message() == "Invalid Automerge change data: "@
            + carried@,
        StoreError::Other(carried)@.message() == "Other error: "@ + carried@,
{
}

/// The view of an error has its kind, and all that it carries.
pub proof fn law_error_view_is_faithful(carried: String)
    ensures
        StoreError::Io(carried)@ == StoreErrorView::Io(carried@),
        StoreError::Database(carried)@ == StoreErrorView::Database(carried@),
        StoreError::Automerge(carried)@ == StoreErrorView::Automerge(carried@),
        StoreError::Join(carried)@ == StoreErrorView::Join(carried@),
        StoreError::DocumentNotFound(carried)@ == StoreErrorView::DocumentNotFound(carried@),
        StoreError::InvalidChangeData(carried)@ == StoreErrorView::InvalidChangeData(carried@),
        StoreError::Other(carried)@ == StoreErrorView::Other(carried@),
{
}

} // verus!
