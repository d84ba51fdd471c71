use vstd::prelude::*;

use crate::utility::append_debug;

verus! {

/// Describes which step failed and why.
#[derive(Debug)]
pub struct StepFailure {
    /// The name of the step that failed.
    pub step: &'static str,
    /// A human readable description of the failure.
    pub message: String,
}

/// The error type returned to the caller of a pipeline.
#[derive(Debug)]
pub enum PipelineError {
    /// The pipeline was executed before an input value was sent.
    InputMissing,
    /// A step failed with a free-form message.
    Message(String),
    /// A step failed with a structured description.
    StepFailure(StepFailure),
}

/// Specifies std's reflexive conversion `impl<T> From<T> for T`, whose
/// documentation says that it returns the argument unchanged.
pub assume_specification<U>[ <U as From<U>>::from ](t: U) -> (converted: U)
    ensures
        converted == t,
;

impl StepFailure {
    /// Describes the error `err` of the step named `step`: the message is
    /// the error's debug formatting.
    pub fn from_error<E: std::fmt::Debug>(step: &'static str, err: &E) -> (failure: Self)
        ensures
            failure.step == step,
    {
        let mut message = String::new();
        append_debug(&mut message, err);
        StepFailure { step, message }
    }
}

impl PipelineError {
    /// Whether this error reports a pipeline that was run without an input value.
    pub open spec fn is_input_missing(self) -> bool {
        self is InputMissing
    }
}

} // verus!
