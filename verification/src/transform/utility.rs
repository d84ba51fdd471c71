use vstd::prelude::*;

use crate::observer::Observer;
use crate::utility::append_debug;
use crate::transform::error::PipelineError;

verus! {

/// Describes a failed step's error as the pipeline error that reports it:
/// a step failure whose text is the error's debug formatting.
pub(crate) fn failure_of<E: std::fmt::Debug>(err: &E) -> (error: PipelineError)
    ensures
        error is StepFailure,
{
    let mut text = String::new();
    append_debug(&mut text, err);
    PipelineError::StepFailure(text)
}

/// Requires a pipeline input value before execution starts.
///
/// Returns the value when it exists, and `PipelineError::InputMissing`
/// when the pipeline was executed without one.
pub fn require_passable<T>(passable: Option<T>) -> (result: Result<T, PipelineError>)
    ensures
        match passable {
            Some(value) => result == Ok::<T, PipelineError>(value),
            None => result matches Err(PipelineError::InputMissing),
        },
{
    match passable {
        Some(value) => Ok(value),
        None => Err(PipelineError::InputMissing),
    }
}

/// Shows `passable` to every tap, in the order they were added.
pub fn run_taps<T>(taps: &Vec<Box<dyn Observer<T>>>, passable: &T)
    ensures
        forall|i: int| 0 <= i < taps@.len() ==> #[trigger] taps@[i].observed(passable),
{
    let mut index: usize = 0;
    while index < taps.len()
        invariant
            index <= taps.len(),
            forall|i: int| 0 <= i < index ==> #[trigger] taps@[i].observed(passable),
        decreases taps.len() - index,
    {
        taps[index].call(passable);
        index = index + 1;
    }
}

} // verus!
