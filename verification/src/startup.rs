//! Where the store keeps its files, and how opening it can fail.

use vstd::prelude::*;
use std::path::PathBuf;
use crate::error::{StoreError, StoreErrorView};

verus! {

/// A path of the standard library.
#[verifier::external_type_specification]
#[verifier::external_body]
pub struct ExPathBuf(PathBuf);

/// Why the store could not be opened, with the text of the error.
#[derive(Debug)]
pub enum StartupFailure {
    /// The system names no directory for the data of the application.
    NoDataDir,
    /// The directory of the documents could not be created.
    CreateDir(String),
    /// The metadata database could not be opened.
    OpenDatabase(String),
    /// The metadata table could not be created.
    CreateTable(String),
    /// The metadata table could not be queried.
    ReadIds(String),
}

/// A [`StartupFailure`] with its text as a sequence of characters.
pub enum StartupFailureView {
    NoDataDir,
    CreateDir(Seq<char>),
    OpenDatabase(Seq<char>),
    CreateTable(Seq<char>),
    ReadIds(Seq<char>),
}

impl View for StartupFailure {
    type V = StartupFailureView;

    open spec fn view(&self) -> StartupFailureView {
        match self {
            StartupFailure::NoDataDir => StartupFailureView::NoDataDir,
            StartupFailure::CreateDir(t) => StartupFailureView::CreateDir(t@),
            StartupFailure::OpenDatabase(t) => StartupFailureView::OpenDatabase(t@),
            StartupFailure::CreateTable(t) => StartupFailureView::CreateTable(t@),
            StartupFailure::ReadIds(t) => StartupFailureView::ReadIds(t@),
        }
    }
}

/// The error that is reported where the store could not be opened.
pub open spec fn startup_error_spec(failure: StartupFailureView) -> StoreErrorView {
    match failure {
        StartupFailureView::NoDataDir => StoreErrorView::Other(
            "Failed to get application data directory"@,
        ),
        StartupFailureView::CreateDir(text) => StoreErrorView::Io(text),
        StartupFailureView::OpenDatabase(text) => StoreErrorView::Database(text),
        StartupFailureView::CreateTable(text) => StoreErrorView::Database(text),
        StartupFailureView::ReadIds(text) => StoreErrorView::Database(text),
    }
}

/// The error that is reported where the store could not be opened.
pub fn startup_error(failure: StartupFailure) -> (error: StoreError)
    ensures
        error@ == startup_error_spec(failure@),
{
    match failure {
        StartupFailure::NoDataDir => StoreError::Other(
            "Failed to get application data directory".to_owned(),
        ),
        StartupFailure::CreateDir(text) => StoreError::Io(text),
        StartupFailure::OpenDatabase(text) => StoreError::Database(text),
        StartupFailure::CreateTable(text) => StoreError::Database(text),
        StartupFailure::ReadIds(text) => StoreError::Database(text),
    }
}

/// Calls `directories::ProjectDirs::from`, only ever with the names of this
/// application, and takes its data directory. What comes back, if anything, is
/// up to the system and its environment; nothing is said of it.
#[verifier::external_body]
fn project_data_dir(qualifier: &str, organization: &str, application: &str) -> Option<PathBuf>
    requires
        qualifier@ == "com"@,
        organization@ == "lifemanager"@,
        application@ == "LifeManager"@,
{
    directories::ProjectDirs::from(qualifier, organization, application).map(
        |dirs| dirs.data_dir().to_path_buf(),
    )
}

/// The directory found for the data of the application; without one the store
/// cannot be opened.
pub fn required_data_dir(found: Option<PathBuf>) -> (dir: Result<PathBuf, StartupFailure>)
    ensures
        match found {
            Some(path) => dir == Ok::<PathBuf, StartupFailure>(path),
            None => dir matches Err(failure) && failure@ == StartupFailureView::NoDataDir,
        },
{
    match found {
        Some(path) => Ok(path),
        None => Err(StartupFailure::NoDataDir),
    }
}

/// `found` is what the system gave for the data directory of the application
/// LifeManager.
pub closed spec fn system_gave(found: Option<PathBuf>) -> bool {
    call_ensures(project_data_dir, ("com", "lifemanager", "LifeManager"), found)
}

/// The directory that the system gives to the data of the application
/// LifeManager; without one there is none.
pub fn app_data_dir() -> (dir: Result<PathBuf, StartupFailure>)
    ensures
        exists|found: Option<PathBuf>| #[trigger]
            system_gave(found) && match found {
                Some(path) => dir == Ok::<PathBuf, StartupFailure>(path),
                None => dir matches Err(failure) && failure@ == StartupFailureView::NoDataDir,
            },
{
    let found = project_data_dir("com", "lifemanager", "LifeManager");
    assert(system_gave(found));
    required_data_dir(found)
}

/// The name of the directory of the documents, within the data directory.
pub fn documents_dir_name() -> (name: &'static str)
    ensures
        name@ == "automerge_docs"@,
{
    "automerge_docs"
}

/// The name of the metadata database, within the directory of the documents.
pub fn database_file_name() -> (name: &'static str)
    ensures
        name@ == "metadata.db"@,
{
    "metadata.db"
}

/// Nothing but the system gives a data directory.
proof fn lemma_only_the_system_gives_directories(found: Option<PathBuf>)
    ensures
        system_gave(found) <==> call_ensures(
            project_data_dir,
            ("com", "lifemanager", "LifeManager"),
            found,
        ),
{
}

/// Why the store could not be opened is reported with all the text there is: a
/// directory that could not be created as an I/O error, all that the database
/// refused as a database error, and a missing data directory in these words.
pub proof fn law_startup_failure_is_told(text: String)
    ensures
        startup_error_spec(StartupFailure::NoDataDir@) == StoreErrorView::Other(
            "Failed to get application data directory"@,
        ),
        startup_error_spec(StartupFailure::CreateDir(text)@) == StoreErrorView::Io(text@),
        startup_error_spec(StartupFailure::OpenDatabase(text)@) == StoreErrorView::Database(text@),
        startup_error_spec(StartupFailure::CreateTable(text)@) == StoreErrorView::Database(text@),
        startup_error_spec(StartupFailure::ReadIds(text)@) == StoreErrorView::Database(text@),
        StartupFailure::NoDataDir@ is NoDataDir,
        StartupFailure::CreateDir(text)@ is CreateDir,
        StartupFailure::OpenDatabase(text)@ is OpenDatabase,
        StartupFailure::CreateTable(text)@ is CreateTable,
        StartupFailure::ReadIds(text)@ is ReadIds,
{
}

} // verus!
