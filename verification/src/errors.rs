//! The errors of the library.
use vstd::prelude::*;

verus! {

/// Why a task that ran on its own brought no result.
#[derive(Debug, PartialEq, Eq)]
pub enum TaskError<E, J> {
    /// The task ran to its end and failed.
    Failed(E),
    /// The task was cancelled or panicked.
    Join(J),
}

/// How a task came to its end: with a value, with an error of its own, or cut short.
pub type Outcome<T, E, J> = Result<Result<T, E>, J>;

/// The error of an outcome that is bad.
pub open spec fn outcome_error<T, E, J>(outcome: Outcome<T, E, J>) -> Option<TaskError<E, J>> {
    match outcome {
        Ok(Ok(_)) => None,
        Ok(Err(error)) => Some(TaskError::Failed(error)),
        Err(error) => Some(TaskError::Join(error)),
    }
}

/// A task that brought a value has no error. One that ran to its end without a value has the
/// error that it failed with, and one that was cut short has the reason of that.
pub proof fn law_error_of_an_outcome<T, E, J>(value: T, failure: E, cut: J)
    ensures
        outcome_error::<T, E, J>(Ok(Ok(value))) is None,
        outcome_error::<T, E, J>(Ok(Err(failure))) == Some(TaskError::<E, J>::Failed(failure)),
        outcome_error::<T, E, J>(Err(cut)) == Some(TaskError::<E, J>::Join(cut)),
{
}

} // verus!
