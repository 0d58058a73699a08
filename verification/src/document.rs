//! Automerge documents in their stored form: the empty document, and a
//! document with one more change.

use vstd::prelude::*;
use std::future::{poll_fn, Future};
use std::pin::Pin;
use std::task::{Context, Poll, Waker};
use automerge::{AutoCommit, Change};
use tokio::task::{unconstrained, LocalSet};
use crate::error::{StoreError, StoreErrorView};

verus! {

/// A document of the `automerge` crate. It holds changes, each known by its
/// hash: those that have been applied, and those that wait for a change that
/// they depend on. Documents come only from the calls below, so none has an
/// open transaction or logs patches.
#[verifier::external_type_specification]
#[verifier::external_body]
pub struct ExAutoCommit(AutoCommit);

/// A change of the `automerge` crate.
#[verifier::external_type_specification]
#[verifier::external_body]
pub struct ExChange(Change);

/// The hashes of the changes that a document holds, applied or waiting.
pub uninterp spec fn document_changes(doc: AutoCommit) -> Set<Seq<u8>>;

/// How many changes a document has applied of each actor, by the actor's id. A
/// damaged document may count one change twice, so the changes that it holds do
/// not fix these numbers.
pub uninterp spec fn document_counts(doc: AutoCommit) -> Map<Seq<u8>, nat>;

/// The hash of a change.
pub uninterp spec fn change_hash(change: Change) -> Seq<u8>;

/// What `AutoCommit::load` makes of stored bytes: the hashes of the changes of
/// the document that they hold and the numbers of those applied of each actor,
/// or an error, or `None` where it panics.
pub uninterp spec fn loaded_document(bytes: Seq<u8>) -> Option<
    Result<(Set<Seq<u8>>, Map<Seq<u8>, nat>), ()>,
>;

/// What `Change::from_bytes` makes of bytes: the hash of the change that they
/// encode or the text of the error, or `None` where it panics.
pub uninterp spec fn decoded_change(bytes: Seq<u8>) -> Option<Result<Seq<u8>, Seq<char>>>;

/// The text of the error with which `AutoCommit::apply_changes` refuses a
/// change, known by its hash, to a document that holds the given changes and
/// has applied so many of each actor; `None` where it does not refuse it.
pub uninterp spec fn refused_change(
    held: Set<Seq<u8>>,
    counts: Map<Seq<u8>, nat>,
    change: Seq<u8>,
) -> Option<Seq<char>>;

/// Whether `AutoCommit::apply_changes` panics on this document and this change.
pub uninterp spec fn lost_change(doc: AutoCommit, change: Change) -> bool;

/// The bytes that `AutoCommit::save` gives of a document, or `None` where it
/// panics.
pub uninterp spec fn saved_document(doc: AutoCommit) -> Option<Seq<u8>>;

/// Calls `AutoCommit::new`: the document holds no change.
#[verifier::external_body]
fn new_document() -> (doc: AutoCommit)
    ensures
        document_changes(doc) == Set::<Seq<u8>>::empty(),
{
    AutoCommit::new()
}

/// Calls `AutoCommit::save` on a task of its own: the bytes, a function of the
/// document, or the text with which `tokio` reports a call that panicked.
/// Where the bytes can be loaded again, they give a document with the same
/// changes and the same numbers of them. A document without any change is
/// saved, and can be loaded again.
///
/// The call panics, for one, where an operation names an actor of which the
/// document has no change. Nothing is said of the text, which counts tasks, nor
/// that every saved document can be loaded: a waiting change is written with
/// the checksum it came with, which `AutoCommit::load` tests and
/// `Change::from_bytes` does not, and an operation on an object that the
/// document lacks is left out, which `AutoCommit::load` finds missing.
#[verifier::external_body]
fn save_document(doc: AutoCommit) -> (saved: Result<Vec<u8>, String>)
    ensures
        match saved {
            Ok(bytes) => {
                &&& saved_document(doc) == Some(bytes@)
                &&& loaded_document(bytes@) matches Some(Ok(loaded)) ==> loaded == (
                    document_changes(doc),
                    document_counts(doc),
                )
                &&& document_changes(doc) == Set::<Seq<u8>>::empty() ==> loaded_document(
                    bytes@,
                ) matches Some(Ok(_))
            },
            Err(_) => {
                &&& saved_document(doc) is None
                &&& document_changes(doc) != Set::<Seq<u8>>::empty()
            },
        },
{
    let (mut doc, mut tasks) = (doc, LocalSet::new());
    let call = tasks.spawn_local(poll_fn(move |_| Poll::Ready(doc.save())));
    let mut context = Context::from_waker(Waker::noop());
    let _ = Pin::new(&mut tasks).poll(&mut context);
    match Pin::new(&mut unconstrained(call)).poll(&mut context) {
        Poll::Ready(done) => done.map_err(|lost| lost.to_string()),
        // Not reached: the task waits for nothing, so the first poll ends it.
        Poll::Pending => Err(String::new()),
    }
}

/// Calls `AutoCommit::load` on a task of its own: the document that the bytes
/// hold, or the text of the error; or, outermost, the text with which `tokio`
/// reports a call that panicked. Which of the three it is, and what the document
/// holds, is a function of the bytes.
///
/// The call panics, for one, where an operation of a stored change has a number
/// beyond 32 bits, names an actor that the change does not list, or does not
/// fit the object it is for. Nothing is said of the texts: which of several
/// faults is found first is left to the order of a hash map.
#[verifier::external_body]
fn load_document(bytes: Vec<u8>) -> (loaded: Result<Result<AutoCommit, String>, String>)
    ensures
        match loaded {
            Ok(Ok(doc)) => loaded_document(bytes@) == Some(
                Ok::<(Set<Seq<u8>>, Map<Seq<u8>, nat>), ()>(
                    (document_changes(doc), document_counts(doc)),
                ),
            ),
            Ok(Err(_)) => loaded_document(bytes@) matches Some(Err(_)),
            Err(_) => loaded_document(bytes@) is None,
        },
{
    let mut tasks = LocalSet::new();
    let call = tasks.spawn_local(poll_fn(move |_| Poll::Ready(AutoCommit::load(&bytes))));
    let mut context = Context::from_waker(Waker::noop());
    let _ = Pin::new(&mut tasks).poll(&mut context);
    match Pin::new(&mut unconstrained(call)).poll(&mut context) {
        Poll::Ready(Ok(result)) => Ok(result.map_err(|e| e.to_string())),
        Poll::Ready(Err(lost)) => Err(lost.to_string()),
        // Not reached: the task waits for nothing, so the first poll ends it.
        Poll::Pending => Err(String::new()),
    }
}

/// Calls `Change::from_bytes` on a task of its own: the one change that the
/// bytes encode, or the text of the error, both a function of the bytes; or,
/// outermost, the text with which `tokio` reports a call that panicked.
///
/// The call panics, for one, where an operation names another by a number
/// beyond 32 bits. Nothing is said of the outermost text, which counts tasks.
#[verifier::external_body]
fn decode_change(bytes: Vec<u8>) -> (decoded: Result<Result<Change, String>, String>)
    ensures
        match decoded {
            Ok(Ok(change)) => decoded_change(bytes@) == Some(
                Ok::<Seq<u8>, Seq<char>>(change_hash(change)),
            ),
            Ok(Err(text)) => decoded_change(bytes@) == Some(Err::<Seq<u8>, Seq<char>>(text@)),
            Err(_) => decoded_change(bytes@) is None,
        },
{
    let mut tasks = LocalSet::new();
    let call = tasks.spawn_local(
        poll_fn(move |_| Poll::Ready(Change::from_bytes(bytes.clone()))),
    );
    let mut context = Context::from_waker(Waker::noop());
    let _ = Pin::new(&mut tasks).poll(&mut context);
    match Pin::new(&mut unconstrained(call)).poll(&mut context) {
        Poll::Ready(Ok(result)) => Ok(result.map_err(|e| e.to_string())),
        Poll::Ready(Err(lost)) => Err(lost.to_string()),
        // Not reached: the task waits for nothing, so the first poll ends it.
        Poll::Pending => Err(String::new()),
    }
}

/// Calls `AutoCommit::apply_changes` with one change, on a task of its own: the
/// document with the change, or the text of the error; or, outermost, the text
/// with which `tokio` reports a call that panicked. Whether the change is
/// refused, and with what text, follows from the changes that the document
/// holds, from the number applied of each actor and from the change, and is
/// settled before anything can panic. A document that has taken the change
/// holds it beside what it held, and does not refuse it.
///
/// The call panics, for one, where an operation has a number beyond 32 bits,
/// names an actor that its change does not list, or does not fit the object it
/// is for; this may come with a change that waited for the one applied. Nothing
/// is said of the outermost text, which counts tasks.
#[verifier::external_body]
fn apply_change(doc: AutoCommit, change: Change) -> (applied: Result<
    Result<AutoCommit, String>,
    String,
>)
    ensures
        match applied {
            Ok(Ok(changed)) => {
                let held = document_changes(doc);
                let hash = change_hash(change);
                &&& !lost_change(doc, change)
                &&& refused_change(held, document_counts(doc), hash) is None
                &&& document_changes(changed) == held.insert(hash)
                &&& refused_change(held.insert(hash), document_counts(changed), hash) is None
            },
            Ok(Err(text)) => {
                &&& !lost_change(doc, change)
                &&& refused_change(
                    document_changes(doc),
                    document_counts(doc),
                    change_hash(change),
                ) == Some(text@)
            },
            Err(_) => {
                &&& lost_change(doc, change)
                &&& refused_change(
                    document_changes(doc),
                    document_counts(doc),
                    change_hash(change),
                ) is None
            },
        },
{
    let (mut doc, mut tasks) = (doc, LocalSet::new());
    let call = tasks.spawn_local(poll_fn(move |_| {
        Poll::Ready(doc.apply_changes([change.clone()]).map(|()| std::mem::take(&mut doc)))
    }));
    let mut context = Context::from_waker(Waker::noop());
    let _ = Pin::new(&mut tasks).poll(&mut context);
    match Pin::new(&mut unconstrained(call)).poll(&mut context) {
        Poll::Ready(Ok(result)) => Ok(result.map_err(|e| e.to_string())),
        Poll::Ready(Err(lost)) => Err(lost.to_string()),
        // Not reached: the task waits for nothing, so the first poll ends it.
        Poll::Pending => Err(String::new()),
    }
}

/// The bytes are what saving gives of a document that holds these changes.
pub open spec fn saved_form(held: Set<Seq<u8>>, bytes: Seq<u8>) -> bool {
    exists|doc: AutoCommit|
        document_changes(doc) == held && #[trigger] saved_document(doc) == Some(bytes)
}

/// The changes of the document that the bytes hold, where they hold one.
pub open spec fn held_changes(bytes: Seq<u8>) -> Option<Set<Seq<u8>>> {
    match loaded_document(bytes) {
        Some(Ok((held, counts))) => Some(held),
        _ => None,
    }
}

/// The bytes are what saving gives of a document that holds these changes and
/// does not refuse `change`. Where they can be loaded, they give what the
/// document held.
pub open spec fn saved_with(held: Set<Seq<u8>>, change: Seq<u8>, bytes: Seq<u8>) -> bool {
    exists|doc: AutoCommit|
        {
            &&& document_changes(doc) == held
            &&& #[trigger] saved_document(doc) == Some(bytes)
            &&& refused_change(held, document_counts(doc), change) is None
            &&& loaded_document(bytes) matches Some(Ok(loaded)) ==> loaded == (
                held,
                document_counts(doc),
            )
        }
}

/// `outcome` is what a load of these bytes gave.
pub closed spec fn load_gave(
    bytes: Vec<u8>,
    outcome: Result<Result<AutoCommit, String>, String>,
) -> bool {
    call_ensures(load_document, (bytes,), outcome)
}

/// `outcome` is what the decoding of these bytes gave.
pub closed spec fn decode_gave(
    bytes: Vec<u8>,
    outcome: Result<Result<Change, String>, String>,
) -> bool {
    call_ensures(decode_change, (bytes,), outcome)
}

/// `outcome` is what the application of this change to this document gave.
pub closed spec fn apply_gave(
    doc: AutoCommit,
    change: Change,
    outcome: Result<Result<AutoCommit, String>, String>,
) -> bool {
    call_ensures(apply_change, (doc, change), outcome)
}

/// `outcome` is what the saving of this document gave.
pub closed spec fn save_gave(doc: AutoCommit, outcome: Result<Vec<u8>, String>) -> bool {
    call_ensures(save_document, (doc,), outcome)
}

/// Nothing but the calls themselves gives their outcomes.
proof fn lemma_only_calls_give_outcomes(
    bytes: Vec<u8>,
    doc: AutoCommit,
    change: Change,
    loaded: Result<Result<AutoCommit, String>, String>,
    decoded: Result<Result<Change, String>, String>,
    saved: Result<Vec<u8>, String>,
)
    ensures
        load_gave(bytes, loaded) <==> call_ensures(load_document, (bytes,), loaded),
        decode_gave(bytes, decoded) <==> call_ensures(decode_change, (bytes,), decoded),
        apply_gave(doc, change, loaded) <==> call_ensures(apply_change, (doc, change), loaded),
        save_gave(doc, saved) <==> call_ensures(save_document, (doc,), saved),
{
}

/// Loading these bytes failed with an error of this text.
pub open spec fn load_is_refused(bytes: Seq<u8>, text: Seq<char>) -> bool {
    exists|b: Vec<u8>, t: String| b@ == bytes && t@ == text && #[trigger] load_gave(b, Ok(Err(t)))
}

/// Loading these bytes panicked, and was reported with this text.
pub open spec fn load_is_lost(bytes: Seq<u8>, text: Seq<char>) -> bool {
    exists|b: Vec<u8>, t: String| b@ == bytes && t@ == text && #[trigger] load_gave(b, Err(t))
}

/// Decoding these bytes panicked, and was reported with this text.
pub open spec fn decode_is_lost(bytes: Seq<u8>, text: Seq<char>) -> bool {
    exists|b: Vec<u8>, t: String| b@ == bytes && t@ == text && #[trigger] decode_gave(b, Err(t))
}

/// Saving a document that holds these changes panicked, and was reported with
/// this text.
pub open spec fn save_is_lost(held: Set<Seq<u8>>, text: Seq<char>) -> bool {
    exists|doc: AutoCommit, t: String|
        document_changes(doc) == held && saved_document(doc) is None && t@ == text
            && #[trigger] save_gave(doc, Err(t))
}

/// Applying the change with this hash to a document that holds these changes
/// panicked, and was reported with this text.
pub open spec fn apply_is_lost(held: Set<Seq<u8>>, hash: Seq<u8>, text: Seq<char>) -> bool {
    exists|doc: AutoCommit, change: Change, t: String|
        document_changes(doc) == held && change_hash(change) == hash && lost_change(doc, change)
            && t@ == text && #[trigger] apply_gave(doc, change, Err(t))
}

/// The bytes are the saved form of a document without any change, and hold one.
pub open spec fn is_initial_document(bytes: Seq<u8>) -> bool {
    &&& saved_form(Set::empty(), bytes)
    &&& held_changes(bytes) == Some(Set::<Seq<u8>>::empty())
}

/// The stored form of a document without any change.
pub fn initial_document() -> (bytes: Vec<u8>)
    ensures
        is_initial_document(bytes@),
{
    match save_document(new_document()) {
        Ok(bytes) => bytes,
        Err(_) => {
            // A document without any change is saved.
            assert(false);
            Vec::new()
        },
    }
}

/// Where a merge stopped, with the text of the error.
#[derive(Debug)]
pub enum MergeFailure {
    /// The stored document could not be loaded.
    Load(String),
    /// The bytes received are not a change.
    Decode(String),
    /// The document refused the change.
    Apply(String),
    /// The task that did the work panicked.
    Lost(String),
}

/// A [`MergeFailure`] with its text as a sequence of characters.
pub enum MergeFailureView {
    Load(Seq<char>),
    Decode(Seq<char>),
    Apply(Seq<char>),
    Lost(Seq<char>),
}

impl View for MergeFailure {
    type V = MergeFailureView;

    open spec fn view(&self) -> MergeFailureView {
        match self {
            MergeFailure::Load(t) => MergeFailureView::Load(t@),
            MergeFailure::Decode(t) => MergeFailureView::Decode(t@),
            MergeFailure::Apply(t) => MergeFailureView::Apply(t@),
            MergeFailure::Lost(t) => MergeFailureView::Lost(t@),
        }
    }
}

/// The error that the store reports for a merge that stopped.
pub open spec fn merge_error_spec(failure: MergeFailureView) -> StoreErrorView {
    match failure {
        MergeFailureView::Load(text) => StoreErrorView::Automerge(text),
        MergeFailureView::Decode(text) => StoreErrorView::InvalidChangeData(text),
        MergeFailureView::Apply(text) => StoreErrorView::Automerge(text),
        MergeFailureView::Lost(text) => StoreErrorView::Join(text),
    }
}

/// The error that the store reports for a merge that stopped: malformed change
/// data is told apart from what Automerge refused, and both from a lost task.
pub fn merge_error(failure: MergeFailure) -> (error: StoreError)
    ensures
        error@ == merge_error_spec(failure@),
{
    match failure {
        MergeFailure::Load(text) => StoreError::Automerge(text),
        MergeFailure::Decode(text) => StoreError::InvalidChangeData(text),
        MergeFailure::Apply(text) => StoreError::Automerge(text),
        MergeFailure::Lost(text) => StoreError::Join(text),
    }
}

/// The view of a merge's result.
pub open spec fn merged_view(merged: Result<Vec<u8>, MergeFailure>) -> Result<
    Seq<u8>,
    MergeFailureView,
> {
    match merged {
        Ok(bytes) => Ok(bytes@),
        Err(failure) => Err(failure@),
    }
}

/// `merged` is what comes of merging the change encoded by `changes` into the
/// document stored as `current`. The document is loaded first, the change
/// decoded next, then applied, and the document saved last; the first of these
/// to fail is reported, and a panic in any of them as lost. What comes of
/// success is the saved form of a document that holds the old changes and the
/// new one. Where it can be loaded, it gives these changes, and does not refuse
/// the new one. A text that is no function of the bytes is the one that the
/// failed call gave.
pub open spec fn merges_to(
    current: Seq<u8>,
    changes: Seq<u8>,
    merged: Result<Seq<u8>, MergeFailureView>,
) -> bool {
    match loaded_document(current) {
        None => merged matches Err(MergeFailureView::Lost(text)) && load_is_lost(current, text),
        Some(Err(_)) => merged matches Err(MergeFailureView::Load(text)) && load_is_refused(
            current,
            text,
        ),
        Some(Ok((held, counts))) => match decoded_change(changes) {
            None => merged matches Err(MergeFailureView::Lost(text)) && decode_is_lost(
                changes,
                text,
            ),
            Some(Err(text)) => merged == Err::<Seq<u8>, MergeFailureView>(
                MergeFailureView::Decode(text),
            ),
            Some(Ok(change)) => match refused_change(held, counts, change) {
                Some(text) => merged == Err::<Seq<u8>, MergeFailureView>(
                    MergeFailureView::Apply(text),
                ),
                None => match merged {
                    Ok(bytes) => saved_with(held.insert(change), change, bytes),
                    Err(failure) => {
                        &&& failure matches MergeFailureView::Lost(text)
                        &&& apply_is_lost(held, change, text) || save_is_lost(
                            held.insert(change),
                            text,
                        )
                    },
                },
            },
        },
    }
}

/// What the load of a stored document means for a merge: the document, or the
/// failure with the text that came.
pub fn after_load<T>(call: Result<Result<T, String>, String>) -> (doc: Result<T, MergeFailure>)
    ensures
        match call {
            Ok(Ok(value)) => doc == Ok::<T, MergeFailure>(value),
            Ok(Err(text)) => doc matches Err(failure) && failure@ == MergeFailureView::Load(text@),
            Err(text) => doc matches Err(failure) && failure@ == MergeFailureView::Lost(text@),
        },
{
    match call {
        Ok(Ok(value)) => Ok(value),
        Ok(Err(text)) => Err(MergeFailure::Load(text)),
        Err(text) => Err(MergeFailure::Lost(text)),
    }
}

/// What the decoding of a change means for a merge: the change, or the failure
/// with the text that came.
pub fn after_decode<T>(call: Result<Result<T, String>, String>) -> (change: Result<
    T,
    MergeFailure,
>)
    ensures
        match call {
            Ok(Ok(value)) => change == Ok::<T, MergeFailure>(value),
            Ok(Err(text)) => change matches Err(failure) && failure@ == MergeFailureView::Decode(
                text@,
            ),
            Err(text) => change matches Err(failure) && failure@ == MergeFailureView::Lost(text@),
        },
{
    match call {
        Ok(Ok(value)) => Ok(value),
        Ok(Err(text)) => Err(MergeFailure::Decode(text)),
        Err(text) => Err(MergeFailure::Lost(text)),
    }
}

/// What the application of a change means for a merge: the changed document, or
/// the failure with the text that came.
pub fn after_apply<T>(call: Result<Result<T, String>, String>) -> (changed: Result<
    T,
    MergeFailure,
>)
    ensures
        match call {
            Ok(Ok(value)) => changed == Ok::<T, MergeFailure>(value),
            Ok(Err(text)) => changed matches Err(failure) && failure@ == MergeFailureView::Apply(
                text@,
            ),
            Err(text) => changed matches Err(failure) && failure@ == MergeFailureView::Lost(text@),
        },
{
    match call {
        Ok(Ok(value)) => Ok(value),
        Ok(Err(text)) => Err(MergeFailure::Apply(text)),
        Err(text) => Err(MergeFailure::Lost(text)),
    }
}

/// What the saving of a document means for a merge: the bytes, or the failure
/// with the text that came.
pub fn after_save(call: Result<Vec<u8>, String>) -> (saved: Result<Vec<u8>, MergeFailure>)
    ensures
        match call {
            Ok(bytes) => saved == Ok::<Vec<u8>, MergeFailure>(bytes),
            Err(text) => saved matches Err(failure) && failure@ == MergeFailureView::Lost(text@),
        },
{
    match call {
        Ok(bytes) => Ok(bytes),
        Err(text) => Err(MergeFailure::Lost(text)),
    }
}

/// Merges the change encoded by `changes` into the document stored as
/// `current`, and returns the document in its new stored form.
pub fn merge_changes(current: Vec<u8>, changes: Vec<u8>) -> (merged: Result<Vec<u8>, MergeFailure>)
    ensures
        merges_to(current@, changes@, merged_view(merged)),
{
    let loaded = load_document(current);
    assert(load_gave(current, loaded));
    let doc = match after_load(loaded) {
        Ok(doc) => doc,
        Err(failure) => return Err(failure),
    };
    let decoded = decode_change(changes);
    assert(decode_gave(changes, decoded));
    let change = match after_decode(decoded) {
        Ok(change) => change,
        Err(failure) => return Err(failure),
    };
    let applied = apply_change(doc, change);
    assert(apply_gave(doc, change, applied));
    let changed = match after_apply(applied) {
        Ok(changed) => changed,
        Err(failure) => return Err(failure),
    };
    let saved = save_document(changed);
    assert(save_gave(changed, saved));
    after_save(saved)
}

/// The view of what came of a merge has all its bytes, or the kind of the
/// failure with all its text. Each kind is reported as its own error: what
/// Automerge did not load or refused, data that is no change, and a lost task.
pub proof fn law_merge_failure_is_told(text: String, bytes: Vec<u8>)
    ensures
        merged_view(Ok(bytes)) == Ok::<Seq<u8>, MergeFailureView>(bytes@),
        merged_view(Err(MergeFailure::Load(text))) == Err::<Seq<u8>, MergeFailureView>(
            MergeFailureView::Load(text@),
        ),
        merged_view(Err(MergeFailure::Decode(text))) == Err::<Seq<u8>, MergeFailureView>(
            MergeFailureView::Decode(text@),
        ),
        merged_view(Err(MergeFailure::Apply(text))) == Err::<Seq<u8>, MergeFailureView>(
            MergeFailureView::Apply(text@),
        ),
        merged_view(Err(MergeFailure::Lost(text))) == Err::<Seq<u8>, MergeFailureView>(
            MergeFailureView::Lost(text@),
        ),
        merge_error_spec(MergeFailure::Load(text)@) == StoreErrorView::Automerge(text@),
        merge_error_spec(MergeFailure::Decode(text)@) == StoreErrorView::InvalidChangeData(text@),
        merge_error_spec(MergeFailure::Apply(text)@) == StoreErrorView::Automerge(text@),
        merge_error_spec(MergeFailure::Lost(text)@) == StoreErrorView::Join(text@),
{
}

/// To merge a change keeps all that the stored document held and adds that
/// change, for every document and change of which no call fails: nothing is
/// lost, and nothing else comes in.
pub proof fn law_merge_adds_exactly_the_change(
    current: Seq<u8>,
    changes: Seq<u8>,
    merged: Seq<u8>,
)
    requires
        merges_to(current, changes, Ok(merged)),
    ensures
        exists|doc: AutoCommit, held: Set<Seq<u8>>, counts: Map<Seq<u8>, nat>, change: Seq<u8>|
            {
                &&& loaded_document(current) == Some(
                    Ok::<(Set<Seq<u8>>, Map<Seq<u8>, nat>), ()>((held, counts)),
                )
                &&& decoded_change(changes) == Some(Ok::<Seq<u8>, Seq<char>>(change))
                &&& #[trigger] refused_change(held, counts, change) is None
                &&& #[trigger] saved_document(doc) == Some(merged)
                &&& document_changes(doc) == held.insert(change)
            },
        held_changes(current) is Some,
        held_changes(merged) matches Some(now_held) ==> held_changes(current)->0.subset_of(now_held)
            && now_held.contains(decoded_change(changes)->0->Ok_0) && forall|h: Seq<u8>|
            #[trigger] now_held.contains(h) ==> held_changes(current)->0.contains(h) || h
                == decoded_change(changes)->0->Ok_0,
{
    let (held, counts) = loaded_document(current)->0->Ok_0;
    let change = decoded_change(changes)->0->Ok_0;
    let doc = choose|doc: AutoCommit|
        document_changes(doc) == held.insert(change) && #[trigger] saved_document(doc) == Some(
            merged,
        );
    assert(refused_change(held, counts, change) is None);
    assert(saved_document(doc) == Some(merged));
}

/// A merge that does not come to a document is one of which a call failed: the
/// answer names the first that did, and no merge fails for another reason.
pub proof fn law_merge_fails_only_with_a_call(
    current: Seq<u8>,
    changes: Seq<u8>,
    failure: MergeFailureView,
)
    requires
        merges_to(current, changes, Err(failure)),
    ensures
        match failure {
            MergeFailureView::Load(text) => {
                &&& loaded_document(current) matches Some(Err(_))
                &&& exists|b: Vec<u8>, t: String|
                    b@ == current && t@ == text && #[trigger] load_gave(b, Ok(Err(t)))
            },
            MergeFailureView::Decode(text) => decoded_change(changes) == Some(
                Err::<Seq<u8>, Seq<char>>(text),
            ),
            MergeFailureView::Apply(text) => loaded_document(current) matches Some(
                Ok((held, counts)),
            ) && decoded_change(changes) matches Some(Ok(change)) && refused_change(
                held,
                counts,
                change,
            ) == Some(text),
            MergeFailureView::Lost(text) => {
                ||| exists|b: Vec<u8>, t: String|
                    b@ == current && t@ == text && #[trigger] load_gave(b, Err(t))
                ||| exists|b: Vec<u8>, t: String|
                    b@ == changes && t@ == text && #[trigger] decode_gave(b, Err(t))
                ||| exists|doc: AutoCommit, change: Change, t: String|
                    lost_change(doc, change) && t@ == text && #[trigger] apply_gave(
                        doc,
                        change,
                        Err(t),
                    )
                ||| exists|doc: AutoCommit, t: String|
                    saved_document(doc) is None && t@ == text && #[trigger] save_gave(doc, Err(t))
            },
        },
{
}

} // verus!
