use vstd::prelude::*;

pub use crate::errors::StepFailure;

verus! {

/// The error type returned by transform pipelines.
#[derive(Debug)]
pub enum PipelineError {
    /// A step failed; the text describes the failure.
    StepFailure(String),
    /// The pipeline was executed before an input value was sent.
    InputMissing,
    /// A step could not be dispatched.
    DispatchError(String),
    /// A recovery callback failed.
    RescueFailure(String),
}

/// The result of running a transform pipeline.
pub type PipelineResult<T> = Result<T, PipelineError>;

impl From<StepFailure> for PipelineError {
    fn from(failure: StepFailure) -> (error: Self) {
        PipelineError::StepFailure(failure.message)
    }
}

impl vstd::std_specs::convert::FromSpecImpl<StepFailure> for PipelineError {
    open spec fn obeys_from_spec() -> bool {
        true
    }

    open spec fn from_spec(failure: StepFailure) -> Self {
        PipelineError::StepFailure(failure.message)
    }
}

} // verus!
