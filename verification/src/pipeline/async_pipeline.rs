use vstd::prelude::*;

use crate::errors::PipelineError;
use crate::pipeline::pipeline::delivered;
use crate::types::PipelineResult;
use crate::utility::require_passable;

verus! {

/// The configuration of an asynchronous pipeline: an optional input value
/// and the ordered steps.
///
/// The steps are of the type `TStep` that the asynchronous runtime uses for
/// them; running them is left to that runtime, which starts from
/// [`AsyncPipeline::start`].
pub struct AsyncPipeline<TPassable, TStep> {
    passable: Option<TPassable>,
    pipes: Vec<TStep>,
}

impl<TPassable, TStep> AsyncPipeline<TPassable, TStep> {
    /// The value that the pipeline will process, if one was sent.
    pub closed spec fn passable(self) -> Option<TPassable> {
        self.passable
    }

    /// The steps, in execution order.
    pub closed spec fn steps(self) -> Seq<TStep> {
        self.pipes@
    }

    /// Creates a new asynchronous pipeline without a value or steps.
    pub fn new() -> (pipeline: Self)
        ensures
            pipeline.passable() is None,
            pipeline.steps() == Seq::<TStep>::empty(),
    {
        AsyncPipeline { passable: None, pipes: Vec::new() }
    }

    /// Provides the initial passable value.
    pub fn send(self, passable: TPassable) -> (pipeline: Self)
        ensures
            pipeline.passable() == Some(passable),
            pipeline.steps() == self.steps(),
    {
        let AsyncPipeline { passable: _, pipes } = self;
        AsyncPipeline { passable: Some(passable), pipes }
    }

    /// Replaces the steps with `pipes`.
    pub fn through(self, pipes: Vec<TStep>) -> (pipeline: Self)
        ensures
            pipeline.passable() == self.passable(),
            pipeline.steps() == pipes@,
    {
        let AsyncPipeline { passable, pipes: _ } = self;
        AsyncPipeline { passable, pipes }
    }

    /// Hands out the value and the steps to run, or `InputMissing` when no
    /// value was sent.
    pub fn start(self) -> (started: Result<(TPassable, Vec<TStep>), PipelineError>)
        ensures
            match self.passable() {
                None => started matches Err(PipelineError::InputMissing),
                Some(passable) => started matches Ok((value, steps)) && value == passable
                    && steps@ == self.steps(),
            },
    {
        let AsyncPipeline { passable, pipes } = self;
        match require_passable(passable) {
            Ok(passable) => Ok((passable, pipes)),
            Err(error) => Err(error),
        }
    }
}

impl<TPassable, TStep> Default for AsyncPipeline<TPassable, TStep> {
    fn default() -> (pipeline: Self)
        ensures
            pipeline.passable() is None,
            pipeline.steps() == Seq::<TStep>::empty(),
    {
        Self::new()
    }
}

/// What an asynchronous continuation does next.
pub enum AsyncStep {
    /// Run the step at this position, with the steps after it as its
    /// continuation.
    Run(usize),
    /// No step is left: the value handed on is the result.
    Done,
}

/// Decides what the continuation positioned at `index` of `steps` does:
/// run the step there, or end the chain after the last step.
pub fn async_step<TStep>(steps: &[TStep], index: usize) -> (step: AsyncStep)
    requires
        index <= steps@.len(),
    ensures
        index < steps@.len() ==> step == AsyncStep::Run(index),
        index == steps@.len() ==> step == AsyncStep::Done,
{
    if index < steps.len() {
        AsyncStep::Run(index)
    } else {
        AsyncStep::Done
    }
}

/// Turns what the asynchronous steps returned into what the caller
/// receives: a value passes unchanged and a step error is converted.
pub fn async_finish<TPassable, TError: Into<PipelineError>>(
    outcome: PipelineResult<TPassable, TError>,
) -> (result: PipelineResult<TPassable>)
    ensures
        delivered(outcome, result),
{
    match outcome {
        Ok(value) => Ok(value),
        Err(error) => Err(error.into()),
    }
}

/// Creates an asynchronous pipeline with an initial value.
pub fn async_pipeline<TPassable, TStep>(passable: TPassable) -> (created: AsyncPipeline<
    TPassable,
    TStep,
>)
    ensures
        created.passable() == Some(passable),
        created.steps() == Seq::<TStep>::empty(),
{
    AsyncPipeline::new().send(passable)
}

} // verus!
