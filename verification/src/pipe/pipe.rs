use vstd::prelude::*;
use std::sync::Arc;

use crate::errors::PipelineError;
use crate::pipe::Next;
use crate::types::PipelineResult;

verus! {

/// Defines a pipeline step.
///
/// A pipe receives the current value and a [`Next`] continuation. It may
/// continue the pipeline, stop early, wrap the downstream result, or fail.
/// Steps are shared, so that a configured pipeline can move between
/// threads: a pipe is `Send` and `Sync`.
///
/// An implementation may describe what it does: `spec_handle` gives the
/// step's result for the passable value and the behaviour of the rest of
/// the pipeline (a function from the value handed on to the result that
/// comes back), and `obeys_handle_spec` says that `handle` keeps to it:
/// whenever the rest of the pipeline is fixed by its own descriptions, or
/// the description does not depend on the rest for this value.
/// Implementations that do not describe themselves claim nothing.
pub trait Pipe<TPassable, TError = PipelineError>: Send + Sync {
    /// Whether `handle` returns what `spec_handle` describes.
    open spec fn obeys_handle_spec(&self) -> bool {
        false
    }

    /// The result of this step for `passable`, when the remaining steps
    /// behave as `rest`.
    open spec fn spec_handle(
        &self,
        passable: TPassable,
        rest: spec_fn(TPassable) -> PipelineResult<TPassable, TError>,
    ) -> PipelineResult<TPassable, TError> {
        arbitrary()
    }

    /// Handles the current pipeline value.
    fn handle(&self, passable: TPassable, next: Next<'_, TPassable, TError>) -> (result:
        PipelineResult<TPassable, TError>)
        ensures
            self.obeys_handle_spec() && (next.determined() || forall|
                rest: spec_fn(TPassable) -> PipelineResult<TPassable, TError>,
            | #[trigger] self.spec_handle(passable, rest) == self.spec_handle(passable, next.rest()))
                ==> result == self.spec_handle(passable, next.rest()),
    ;
}

/// A shared pipe behaves as the pipe it shares.
impl<TPassable, TError, P: Pipe<TPassable, TError>> Pipe<TPassable, TError> for Arc<P> {
    open spec fn obeys_handle_spec(&self) -> bool {
        (**self).obeys_handle_spec()
    }

    open spec fn spec_handle(
        &self,
        passable: TPassable,
        rest: spec_fn(TPassable) -> PipelineResult<TPassable, TError>,
    ) -> PipelineResult<TPassable, TError> {
        (**self).spec_handle(passable, rest)
    }

    fn handle(&self, passable: TPassable, next: Next<'_, TPassable, TError>) -> (result:
        PipelineResult<TPassable, TError>) {
        proof {
            let shared = &**self;
            if forall|rest: spec_fn(TPassable) -> PipelineResult<TPassable, TError>|
                #[trigger] self.spec_handle(passable, rest) == self.spec_handle(
                    passable,
                    next.rest(),
                ) {
                assert forall|rest: spec_fn(TPassable) -> PipelineResult<TPassable, TError>|
                    #[trigger] shared.spec_handle(passable, rest) == shared.spec_handle(
                        passable,
                        next.rest(),
                    ) by {
                    assert(self.spec_handle(passable, rest) == self.spec_handle(
                        passable,
                        next.rest(),
                    ));
                }
            }
        }
        (**self).handle(passable, next)
    }
}

} // verus!
