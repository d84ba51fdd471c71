use vstd::prelude::*;

use crate::errors::PipelineError;
use crate::pipe::behavior::{self, StepBehavior};
use crate::types::{PipelineResult, PipelineStep};

verus! {

/// The remaining part of a running pipeline.
pub(crate) trait Proceed<TPassable, TError> {
    /// Whether a run of the remaining part is fixed by the descriptions of
    /// its steps.
    spec fn determined(&self) -> bool;

    /// The behaviour of the remaining part.
    spec fn rest(&self) -> spec_fn(TPassable) -> PipelineResult<TPassable, TError>;

    /// Runs the remaining part on `passable`.
    fn proceed(&self, passable: TPassable) -> (result: PipelineResult<TPassable, TError>)
        ensures
            self.determined() ==> result == (self.rest())(passable),
    ;
}

/// The steps of a pipeline from `index` on.
#[verifier::reject_recursive_types(TPassable)]
#[verifier::reject_recursive_types(TError)]
pub(crate) struct Remaining<'a, TPassable, TError> {
    pipes: &'a [PipelineStep<TPassable, TError>],
    index: usize,
}

impl<'a, TPassable, TError> Remaining<'a, TPassable, TError> {
    #[verifier::type_invariant]
    spec fn in_bounds(self) -> bool {
        self.index <= self.pipes@.len()
    }

    /// The steps from `index` on.
    pub(crate) closed spec fn steps(self) -> Seq<PipelineStep<TPassable, TError>> {
        self.pipes@.skip(self.index as int)
    }

    /// All steps of `pipes`.
    pub(crate) fn new(pipes: &'a [PipelineStep<TPassable, TError>]) -> (remaining: Self)
        ensures
            remaining.steps() == pipes@,
    {
        let remaining = Remaining { pipes, index: 0 };
        assert(remaining.steps() =~= pipes@);
        remaining
    }
}

impl<'a, TPassable, TError> Proceed<TPassable, TError> for Remaining<'a, TPassable, TError> {
    closed spec fn determined(&self) -> bool {
        behavior::settles(behavior::behaviors(self.steps()), behavior::obeying(self.steps()))
    }

    closed spec fn rest(&self) -> spec_fn(TPassable) -> PipelineResult<TPassable, TError> {
        behavior::rest_of(behavior::behaviors(self.steps()))
    }

    fn proceed(&self, passable: TPassable) -> (result: PipelineResult<TPassable, TError>) {
        proof {
            use_type_invariant(self);
        }
        if self.index < self.pipes.len() {
            let following = Remaining { pipes: self.pipes, index: self.index + 1 };
            let next = Next { remaining: &following };
            let result = self.pipes[self.index].handle(passable, next);
            proof {
                let steps = behavior::behaviors(self.steps());
                let flags = behavior::obeying(self.steps());
                assert(self.steps()[0] == self.pipes@[self.index as int]);
                assert(following.steps() =~= self.steps().drop_first());
                assert(steps.drop_first() =~= behavior::behaviors(following.steps()));
                assert(flags.drop_first() =~= behavior::obeying(following.steps()));
                assert(steps[0] == behavior::step_behavior(&self.pipes@[self.index as int]));
                if self.determined() && behavior::stops_chain(steps[0]) {
                    let step = &self.pipes@[self.index as int];
                    assert forall|rest: spec_fn(TPassable) -> PipelineResult<TPassable, TError>|
                        #[trigger] step.spec_handle(passable, rest) == step.spec_handle(
                            passable,
                            next.rest(),
                        ) by {
                        assert((steps[0])(passable, rest) == (steps[0])(passable, next.rest()));
                    }
                }
            }
            result
        } else {
            proof {
                assert(behavior::behaviors(self.steps()) =~= Seq::<
                    StepBehavior<TPassable, TError>,
                >::empty());
            }
            Ok(passable)
        }
    }
}

/// Pipeline continuation.
///
/// `Next` represents the remaining execution chain after the current step.
/// A step can call [`Next::handle`] to continue the pipeline, return early to
/// stop execution, wrap the downstream result, or return an error.
#[verifier::reject_recursive_types(TPassable)]
#[verifier::reject_recursive_types(TError)]
pub struct Next<'a, TPassable, TError = PipelineError> {
    remaining: &'a dyn Proceed<TPassable, TError>,
}

impl<'a, TPassable, TError> Next<'a, TPassable, TError> {
    /// Creates a continuation for the given remaining steps.
    pub(crate) fn new(remaining: &'a Remaining<'a, TPassable, TError>) -> (next: Self)
        ensures
            next.rest() == behavior::rest_of(behavior::behaviors(remaining.steps())),
            next.determined() == behavior::settles(
                behavior::behaviors(remaining.steps()),
                behavior::obeying(remaining.steps()),
            ),
    {
        Next { remaining }
    }

    /// Whether a run of the remaining steps is fixed by their descriptions.
    pub closed spec fn determined(self) -> bool {
        self.remaining.determined()
    }

    /// The behaviour of the remaining steps: the result that comes back for
    /// each value handed on.
    pub closed spec fn rest(self) -> spec_fn(TPassable) -> PipelineResult<TPassable, TError> {
        self.remaining.rest()
    }

    /// Continues the pipeline execution with `passable`.
    pub fn handle(self, passable: TPassable) -> (result: PipelineResult<TPassable, TError>)
        ensures
            self.determined() ==> result == (self.rest())(passable),
    {
        self.remaining.proceed(passable)
    }
}

} // verus!
