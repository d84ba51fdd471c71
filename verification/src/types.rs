use vstd::prelude::*;
use std::sync::Arc;

use crate::errors::PipelineError;
use crate::observer::SharedObserver;
use crate::pipe::Pipe;

verus! {

/// The result of running a pipeline or one of its steps.
pub type PipelineResult<TPassable, TError = PipelineError> = Result<TPassable, TError>;

/// A shared, type-erased pipeline step.
pub type PipelineStep<TPassable, TError = PipelineError> = Arc<dyn Pipe<TPassable, TError>>;

/// A type-erased callback that observes the final result of a pipeline.
pub type FinallyCallback<TPassable> = Box<dyn SharedObserver<PipelineResult<TPassable>>>;

} // verus!
