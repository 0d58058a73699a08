//! What the commands of the user interface answer.

use vstd::prelude::*;
use crate::error::{joined, StoreError, StoreErrorView};

verus! {

/// The answer to a command: the result, or the text of the error.
pub fn answer<T>(result: Result<T, StoreError>) -> (answer: Result<T, String>)
    ensures
        match result {
            Ok(value) => answer == Ok::<T, String>(value),
            Err(error) => answer matches Err(text) && text@ == error@.message(),
        },
{
    match result {
        Ok(value) => Ok(value),
        Err(error) => Err(error.message()),
    }
}

/// The result of a command that ran on a task of its own: that of the task, or
/// an error if the task was lost.
pub fn spawned<T>(joined_task: Result<Result<T, StoreError>, String>) -> (result: Result<
    T,
    StoreError,
>)
    ensures
        match joined_task {
            Ok(inner) => result == inner,
            Err(text) => result matches Err(error) && error@ == StoreErrorView::Other(
                "Task join error: "@ + text@,
            ),
        },
{
    match joined_task {
        Ok(inner) => inner,
        Err(text) => Err(StoreError::Other(joined("Task join error: ", text.as_str()))),
    }
}

/// A greeting.
pub fn greet(name: &str) -> (text: String)
    ensures
        text@ == "Hello, "@ + name@ + "! You've been greeted from Rust!"@,
{
    let mut text = joined("Hello, ", name);
    text.append("! You've been greeted from Rust!");
    text
}

} // verus!
