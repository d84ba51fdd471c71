use vstd::prelude::*;

use crate::errors::PipelineError;
use crate::pipeline::pipeline::delivered;
use crate::transform::pipe::{
    all_obey, boxed_step, described_run, lemma_appended_steps, lemma_obeying_steps_describe_runs,
    run_boxed, run_transforms, transform_behaviors, transform_obeying, Pipe, TransformBehavior,
};
use crate::transform::sequential::{lemma_one_boxed_step, pipe_behavior};
use crate::types::PipelineResult;
use crate::utility::{listed, require_passable};

verus! {

/// A pipeline whose steps map the value one after another, without a
/// continuation: each step receives the value produced by the one before
/// it, and the first failure ends the run.
#[verifier::reject_recursive_types(TPassable)]
#[verifier::reject_recursive_types(TError)]
pub struct TransformPipeline<TPassable, TError = PipelineError> {
    passable: Option<TPassable>,
    pipes: Vec<Box<dyn Pipe<TPassable, TError>>>,
}

impl<TPassable, TError> TransformPipeline<TPassable, TError> {
    /// The value that the pipeline will process, if one was sent.
    pub closed spec fn passable(self) -> Option<TPassable> {
        self.passable
    }

    /// The behaviours of the steps, in execution order.
    pub closed spec fn steps(self) -> Seq<TransformBehavior<TPassable, TError>> {
        transform_behaviors(self.pipes@)
    }

    /// Whether every step keeps to its own description.
    pub closed spec fn specified(self) -> bool {
        all_obey(self.pipes@)
    }

    /// Whether each step keeps to its own description, in execution order.
    pub closed spec fn obeying(self) -> Seq<bool> {
        transform_obeying(self.pipes@)
    }

    /// Whether the run on `passable` is fixed by the steps' descriptions:
    /// every step it reaches keeps to its own.
    pub open spec fn described_on(self, passable: TPassable) -> bool {
        described_run(self.steps(), self.obeying(), passable)
    }

    /// When every step keeps to its own description, every run is fixed by
    /// the descriptions.
    pub proof fn lemma_specified_runs_are_described(self, passable: TPassable)
        requires
            self.specified(),
        ensures
            self.described_on(passable),
    {
        lemma_obeying_steps_describe_runs(self.pipes@, passable);
    }

    /// Creates a pipeline without a value or steps.
    pub fn new() -> (pipeline: Self)
        ensures
            pipeline.passable() is None,
            pipeline.steps() == Seq::<TransformBehavior<TPassable, TError>>::empty(),
            pipeline.obeying() == Seq::<bool>::empty(),
            pipeline.specified(),
    {
        let pipeline = TransformPipeline { passable: None, pipes: Vec::new() };
        assert(pipeline.steps() =~= Seq::<TransformBehavior<TPassable, TError>>::empty());
        assert(pipeline.obeying() =~= Seq::<bool>::empty());
        pipeline
    }

    /// Provides the initial value to the pipeline.
    pub fn send(self, passable: TPassable) -> (pipeline: Self)
        ensures
            pipeline.passable() == Some(passable),
            pipeline.steps() == self.steps(),
            pipeline.obeying() == self.obeying(),
            pipeline.specified() == self.specified(),
    {
        let TransformPipeline { passable: _, pipes } = self;
        TransformPipeline { passable: Some(passable), pipes }
    }

    /// Adds a step after the existing ones.
    pub fn pipe<P>(self, pipe: P) -> (pipeline: Self) where P: Pipe<TPassable, TError> + 'static
        ensures
            pipeline.passable() == self.passable(),
            pipeline.steps() == self.steps().push(pipe_behavior(pipe)),
            pipeline.obeying() == self.obeying().push(pipe.obeys_handle_spec()),
            pipeline.specified() == (self.specified() && pipe.obeys_handle_spec()),
    {
        let TransformPipeline { passable, mut pipes } = self;
        let ghost before = pipes@;
        let mut added = listed(boxed_step(pipe));
        let ghost added_seq = added@;
        pipes.append(&mut added);
        proof {
            lemma_one_boxed_step(added_seq, pipe);
            assert(pipes@ =~= before + added_seq);
            lemma_appended_steps(before, added_seq);
        }
        TransformPipeline { passable, pipes }
    }

    /// Adds a step after the existing ones when `condition` is `true`.
    pub fn when<P>(self, condition: bool, pipe: P) -> (pipeline: Self) where
        P: Pipe<TPassable, TError> + 'static,

        ensures
            pipeline.passable() == self.passable(),
            pipeline.steps() == if condition {
                self.steps().push(pipe_behavior(pipe))
            } else {
                self.steps()
            },
            pipeline.obeying() == if condition {
                self.obeying().push(pipe.obeys_handle_spec())
            } else {
                self.obeying()
            },
            pipeline.specified() == (self.specified() && (!condition || pipe.obeys_handle_spec())),
    {
        if condition {
            self.pipe(pipe)
        } else {
            self
        }
    }

    /// Adds a step after the existing ones when `condition` is `false`.
    pub fn unless<P>(self, condition: bool, pipe: P) -> (pipeline: Self) where
        P: Pipe<TPassable, TError> + 'static,

        ensures
            pipeline.passable() == self.passable(),
            pipeline.steps() == if !condition {
                self.steps().push(pipe_behavior(pipe))
            } else {
                self.steps()
            },
            pipeline.obeying() == if !condition {
                self.obeying().push(pipe.obeys_handle_spec())
            } else {
                self.obeying()
            },
            pipeline.specified() == (self.specified() && (condition || pipe.obeys_handle_spec())),
    {
        self.when(!condition, pipe)
    }
}

impl<TPassable, TError> TransformPipeline<TPassable, TError> where TError: Into<PipelineError> {
    /// Runs the steps on the sent value and returns the final value; a step
    /// error is converted into the public error type.
    pub fn then_return(self) -> (result: PipelineResult<TPassable>)
        ensures
            match self.passable() {
                None => result matches Err(PipelineError::InputMissing),
                Some(passable) => self.described_on(passable) ==> delivered(
                    run_transforms(self.steps(), passable),
                    result,
                ),
            },
            self.passable() is Some ==> exists|outcome: PipelineResult<TPassable, TError>|
                #[trigger] delivered(outcome, result),
    {
        let TransformPipeline { passable, pipes } = self;
        let passable = match require_passable(passable) {
            Ok(passable) => passable,
            Err(error) => return Err(error),
        };
        let outcome = run_boxed(&pipes, passable);
        let ghost seen = outcome;
        let result = match outcome {
            Ok(value) => Ok(value),
            Err(error) => Err(error.into()),
        };
        assert(delivered(seen, result));
        result
    }
}

impl<TPassable, TError> Default for TransformPipeline<TPassable, TError> {
    fn default() -> (pipeline: Self)
        ensures
            pipeline.passable() is None,
            pipeline.steps() == Seq::<TransformBehavior<TPassable, TError>>::empty(),
            pipeline.obeying() == Seq::<bool>::empty(),
            pipeline.specified(),
    {
        Self::new()
    }
}

} // verus!
