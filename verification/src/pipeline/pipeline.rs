use vstd::prelude::*;
use std::sync::Arc;

use crate::errors::PipelineError;
use crate::pipe::behavior::{self, StepBehavior};
use crate::observer::{
    closure_observation, share_observer, shared_observation, Observation, Observer, ObserverFn,
    OnceObserver,
};
use crate::pipe::{Next, Pipe, Remaining};
use crate::types::{PipelineResult, PipelineStep};
use crate::utility::{listed, require_passable};

verus! {

/// Whether converting the step error `from` into the public error type
/// yields `to`.
pub open spec fn converts_to<TError: Into<PipelineError>>(from: TError, to: PipelineError) -> bool {
    call_ensures(<TError as Into<PipelineError>>::into, (from,), to)
}

/// Whether `outer` is what the caller receives when the steps produced
/// `inner`: values pass unchanged and step errors are converted.
pub open spec fn delivered<TPassable, TError: Into<PipelineError>>(
    inner: PipelineResult<TPassable, TError>,
    outer: PipelineResult<TPassable>,
) -> bool {
    match inner {
        Ok(value) => outer == Ok::<TPassable, PipelineError>(value),
        Err(error) => outer matches Err(converted) && converts_to(error, converted),
    }
}

/// The behaviour of a step given as a value of a concrete pipe type.
pub open spec fn pipe_behavior<TPassable, TError, TPipe: Pipe<TPassable, TError>>(
    pipe: TPipe,
) -> StepBehavior<TPassable, TError> {
    |passable: TPassable, rest: spec_fn(TPassable) -> PipelineResult<TPassable, TError>|
        pipe.spec_handle(passable, rest)
}

/// Moves `pipe` into shared ownership as a type-erased step; the result is
/// always `Some`.
///
/// Boxes `pipe`, coerces the box to a trait object and calls `Arc::from`
/// on it (an `Arc` of a sized value cannot be coerced here). The contract
/// claims that calls on the trait object dispatch to `pipe`'s own
/// implementation, so that the stored step behaves as `pipe` does.
#[verifier::external_body]
fn shared_step<TPassable, TError, TPipe>(pipe: TPipe) -> (shared: Option<
    PipelineStep<TPassable, TError>,
>) where
    TPipe: Pipe<TPassable, TError> + 'static,

    ensures
        shared is Some,
        behavior::step_behavior(&shared.unwrap()) == pipe_behavior(pipe),
        shared.unwrap().obeys_handle_spec() == pipe.obeys_handle_spec(),
{
    let boxed: Box<dyn Pipe<TPassable, TError>> = Box::new(pipe);
    Some(Arc::from(boxed))
}

/// Composable pipeline executor.
///
/// A pipeline stores an optional input value, an ordered list of steps,
/// and an optional callback that runs after execution finishes.
#[verifier::reject_recursive_types(TPassable)]
#[verifier::reject_recursive_types(TError)]
pub struct Pipeline<TPassable, TError = PipelineError> {
    passable: Option<TPassable>,
    pipes: Vec<PipelineStep<TPassable, TError>>,
    finally: Option<OnceObserver<PipelineResult<TPassable>>>,
}

impl<TPassable, TError> Pipeline<TPassable, TError> {
    /// The value that the pipeline will process, if one was sent.
    pub closed spec fn passable(self) -> Option<TPassable> {
        self.passable
    }

    /// The behaviours of the pipeline's steps, in execution order.
    pub closed spec fn steps(self) -> Seq<StepBehavior<TPassable, TError>> {
        behavior::behaviors(self.pipes@)
    }

    /// Whether every step keeps to its own description, so that the
    /// result of a run is determined by `steps`.
    pub closed spec fn specified(self) -> bool {
        behavior::all_obey(self.pipes@)
    }

    /// Whether each step keeps to its own description, in execution order.
    pub closed spec fn obeying(self) -> Seq<bool> {
        behavior::obeying(self.pipes@)
    }

    /// Whether a run is fixed by the steps' descriptions: the steps keep to
    /// their own descriptions up to one that never consults the steps after
    /// it, or to the end.
    pub open spec fn settled(self) -> bool {
        behavior::settles(self.steps(), self.obeying())
    }

    /// When every step keeps to its own description, a run is fixed by the
    /// descriptions.
    pub proof fn lemma_specified_runs_are_settled(self)
        requires
            self.specified(),
        ensures
            self.settled(),
    {
        behavior::lemma_obeying_steps_settle(self.pipes@);
    }

    /// What the final callback states of each result it is shown, if one is
    /// registered.
    pub closed spec fn callback(self) -> Option<Observation<PipelineResult<TPassable>>> {
        match self.finally {
            Some(hook) => Some(hook.observation()),
            None => None,
        }
    }

    /// Whether the final callback, if one is registered, has been shown
    /// `result`.
    pub open spec fn finally_observed(self, result: PipelineResult<TPassable>) -> bool {
        match self.callback() {
            Some(observed) => observed(result),
            None => true,
        }
    }

    /// Creates an empty pipeline.
    pub fn new() -> (pipeline: Self)
        ensures
            pipeline.passable() is None,
            pipeline.steps() == Seq::<StepBehavior<TPassable, TError>>::empty(),
            pipeline.obeying() == Seq::<bool>::empty(),
            pipeline.specified(),
            pipeline.callback() is None,
    {
        let pipeline = Pipeline { passable: None, pipes: Vec::new(), finally: None };
        assert(pipeline.steps() =~= Seq::<StepBehavior<TPassable, TError>>::empty());
        assert(pipeline.obeying() =~= Seq::<bool>::empty());
        pipeline
    }

    /// Provides the initial value to the pipeline.
    pub fn send(self, passable: TPassable) -> (pipeline: Self)
        ensures
            pipeline.passable() == Some(passable),
            pipeline.steps() == self.steps(),
            pipeline.obeying() == self.obeying(),
            pipeline.specified() == self.specified(),
            pipeline.callback() == self.callback(),
    {
        let mut pipeline = self;
        pipeline.passable = Some(passable);
        pipeline
    }

    /// Adds a pipeline step to the end of the execution chain.
    pub fn pipe<TPipe>(self, pipe: TPipe) -> (pipeline: Self) where
        TPipe: Pipe<TPassable, TError> + Send + Sync + 'static,

        ensures
            pipeline.passable() == self.passable(),
            pipeline.steps() == self.steps().push(pipe_behavior(pipe)),
            pipeline.obeying() == self.obeying().push(pipe.obeys_handle_spec()),
            pipeline.specified() == (self.specified() && pipe.obeys_handle_spec()),
            pipeline.callback() == self.callback(),
    {
        let Pipeline { passable, mut pipes, finally } = self;
        let ghost before = pipes@;
        let mut added = listed(shared_step(pipe));
        let ghost added_seq = added@;
        pipes.append(&mut added);
        proof {
            assert(behavior::behaviors(added_seq) =~= seq![pipe_behavior(pipe)]);
            assert(behavior::obeying(added_seq) =~= seq![pipe.obeys_handle_spec()]);
            assert(pipes@ =~= before + added_seq);
            behavior::lemma_appended_steps(before, added_seq);
            assert(behavior::all_obey(added_seq) == pipe.obeys_handle_spec()) by {
                assert(added_seq.len() == 1);
                assert(behavior::obeying(added_seq)[0] == added_seq[0].obeys_handle_spec());
                if pipe.obeys_handle_spec() {
                    assert forall|i: int|
                        0 <= i < added_seq.len()
                        implies #[trigger] added_seq[i].obeys_handle_spec() by {
                        assert(i == 0);
                    }
                }
            }
        }
        Pipeline { passable, pipes, finally }
    }

    /// Replaces the pipeline steps with `pipes`.
    pub fn through(self, pipes: Vec<PipelineStep<TPassable, TError>>) -> (pipeline: Self)
        ensures
            pipeline.passable() == self.passable(),
            pipeline.steps() == behavior::behaviors(pipes@),
            pipeline.obeying() == behavior::obeying(pipes@),
            pipeline.specified() == behavior::all_obey(pipes@),
            pipeline.callback() == self.callback(),
    {
        let Pipeline { passable, pipes: _, finally } = self;
        Pipeline { passable, pipes, finally }
    }

    /// Adds a pipeline step when `condition` is `true`.
    pub fn when<P>(self, condition: bool, pipe: P) -> (pipeline: Self) where
        P: Pipe<TPassable, TError> + Send + Sync + 'static,

        ensures
            pipeline.passable() == self.passable(),
            pipeline.steps() == if condition {
                self.steps().push(pipe_behavior(pipe))
            } else {
                self.steps()
            },
            pipeline.obeying() == if condition {
                self.obeying().push(pipe.obeys_handle_spec())
            } else {
                self.obeying()
            },
            pipeline.specified() == (self.specified() && (!condition || pipe.obeys_handle_spec())),
            pipeline.callback() == self.callback(),
    {
        if condition {
            self.pipe(pipe)
        } else {
            self
        }
    }

    /// Adds a pipeline step when `condition` is `false`.
    pub fn unless<P>(self, condition: bool, pipe: P) -> (pipeline: Self) where
        P: Pipe<TPassable, TError> + Send + Sync + 'static,

        ensures
            pipeline.passable() == self.passable(),
            pipeline.steps() == if !condition {
                self.steps().push(pipe_behavior(pipe))
            } else {
                self.steps()
            },
            pipeline.obeying() == if !condition {
                self.obeying().push(pipe.obeys_handle_spec())
            } else {
                self.obeying()
            },
            pipeline.specified() == (self.specified() && (condition || pipe.obeys_handle_spec())),
            pipeline.callback() == self.callback(),
    {
        if !condition {
            self.pipe(pipe)
        } else {
            self
        }
    }

    /// Sets a callback that observes the result each time the pipeline runs.
    pub fn finally<F>(self, callback: F) -> (pipeline: Self) where
        F: Fn(&PipelineResult<TPassable>) + Send + Sync + 'static,
        TPassable: 'static,

        requires
            forall|result: &PipelineResult<TPassable>| #[trigger]
                call_requires(callback, (result,)),
        ensures
            pipeline.passable() == self.passable(),
            pipeline.steps() == self.steps(),
            pipeline.obeying() == self.obeying(),
            pipeline.specified() == self.specified(),
            pipeline.callback() == Some(closure_observation::<PipelineResult<TPassable>, F>(callback)),
    {
        let wrapped = ObserverFn::new(callback);
        let ghost shown = wrapped;
        let hook = share_observer(wrapped);
        proof {
            let stored = hook.unwrap();
            let expected = closure_observation::<PipelineResult<TPassable>, F>(callback);
            assert forall|result: PipelineResult<TPassable>|
                #[trigger] shared_observation(&stored)(result) == expected(result) by {
                assert(stored.observed(&result) == shown.observed(&result));
            }
            assert(shared_observation(&stored) =~= expected);
        }
        let once = OnceObserver::wrap(hook);
        let Pipeline { passable, pipes, finally: _ } = self;
        Pipeline { passable, pipes, finally: once }
    }
}

impl<TPassable, TError> Pipeline<TPassable, TError> where TError: Into<PipelineError> {
    /// Whether `outcome` is a result that running this pipeline can give:
    /// `InputMissing` when no value was sent, and otherwise what the steps
    /// returned for the value, with a step error converted; when the run is
    /// fixed by the steps' descriptions, that is the value they describe.
    pub open spec fn gives(self, outcome: PipelineResult<TPassable>) -> bool {
        match self.passable() {
            None => outcome matches Err(PipelineError::InputMissing),
            Some(passable) => (exists|returned: PipelineResult<TPassable, TError>|
                #[trigger] delivered(returned, outcome)) && (self.settled() ==> delivered(
                behavior::run_steps(self.steps(), passable),
                outcome,
            )),
        }
    }

    /// The values that the final callback is shown by a run that gives
    /// `result`: that result alone when a value was sent and a callback is
    /// registered, and none otherwise.
    pub open spec fn finally_shown(self, result: PipelineResult<TPassable>) -> Seq<
        PipelineResult<TPassable>,
    > {
        if self.passable() is Some && self.callback() is Some {
            seq![result]
        } else {
            Seq::empty()
        }
    }

    /// Executes the configured steps, then the final callback if one is set.
    ///
    /// The callback is shown the result whether the steps succeeded or
    /// failed, once; without an input value nothing runs. Also returns the
    /// values the callback was shown.
    fn run(self) -> (run: (PipelineResult<TPassable>, Ghost<Seq<PipelineResult<TPassable>>>))
        ensures
            self.gives(run.0),
            self.passable() is Some ==> self.finally_observed(run.0),
            run.1@ == self.finally_shown(run.0),
    {
        let Pipeline { passable, pipes, finally } = self;
        let passable = match require_passable(passable) {
            Ok(passable) => passable,
            Err(error) => return (Err(error), Ghost(Seq::empty())),
        };
        let remaining = Remaining::new(pipes.as_slice());
        let next = Next::new(&remaining);
        let outcome = next.handle(passable);
        let ghost returned = outcome;
        let result = match outcome {
            Ok(value) => Ok(value),
            Err(error) => Err(error.into()),
        };
        assert(delivered(returned, result));
        let shown = match finally {
            Some(callback) => callback.notify(&result),
            None => Ghost(Seq::empty()),
        };
        (result, shown)
    }

    /// Executes the pipeline and returns the final value.
    pub fn then_return(self) -> (result: PipelineResult<TPassable>)
        ensures
            self.gives(result),
            self.passable() is Some ==> self.finally_observed(result),
    {
        let (result, _shown) = self.run();
        result
    }

    /// Executes the pipeline and applies `destination` to the final value.
    pub fn then<F, R>(self, destination: F) -> (result: PipelineResult<R>) where
        F: FnOnce(TPassable) -> R,

        requires
            forall|value: TPassable| #[trigger] call_requires(destination, (value,)),
        ensures
            exists|outcome: PipelineResult<TPassable>|
                #[trigger] self.gives(outcome) && (self.passable() is Some
                    ==> self.finally_observed(outcome)) && maps_to(outcome, destination, result),
            match self.passable() {
                None => result matches Err(PipelineError::InputMissing),
                Some(passable) => self.settled() ==> match behavior::run_steps(
                    self.steps(),
                    passable,
                ) {
                    Ok(value) => result matches Ok(mapped) && call_ensures(
                        destination,
                        (value,),
                        mapped,
                    ),
                    Err(error) => result matches Err(converted) && converts_to(error, converted),
                },
            },
    {
        let (outcome, _shown) = self.run();
        let ghost seen = outcome;
        let result = map_outcome(outcome, destination);
        assert(self.gives(seen));
        result
    }

    /// Executes the pipeline and recovers from a failure with `recovery`.
    ///
    /// `InputMissing` reports a pipeline that was configured without an input
    /// value rather than a failure while processing one, so it is returned
    /// unchanged; every other error is handed to `recovery`. The final
    /// callback is shown the result before any recovery.
    pub fn rescue<F>(self, recovery: F) -> (result: PipelineResult<TPassable>) where
        F: FnOnce(PipelineError) -> TPassable,

        requires
            forall|error: PipelineError| #[trigger] call_requires(recovery, (error,)),
        ensures
            exists|outcome: PipelineResult<TPassable>|
                #[trigger] self.gives(outcome) && (self.passable() is Some
                    ==> self.finally_observed(outcome)) && recovers_to(outcome, recovery, result),
            result matches Err(error) ==> error is InputMissing,
            match self.passable() {
                None => result matches Err(PipelineError::InputMissing),
                Some(passable) => self.settled() ==> match behavior::run_steps(
                    self.steps(),
                    passable,
                ) {
                    Ok(value) => result == Ok::<TPassable, PipelineError>(value),
                    Err(error) => match result {
                        Ok(recovered) => exists|converted: PipelineError|
                            #[trigger] converts_to(error, converted)
                                && !converted.is_input_missing()
                                && call_ensures(recovery, (converted,), recovered),
                        Err(converted) => converted.is_input_missing() && converts_to(
                            error,
                            converted,
                        ),
                    },
                },
            },
    {
        let (outcome, _shown) = self.run();
        let ghost seen = outcome;
        let result = recover_outcome(outcome, recovery);
        assert(self.gives(seen));
        result
    }
}

/// Whether `result` is what applying `destination` to `outcome` gives: a
/// value of `destination` for a successful outcome, and the same error
/// otherwise.
pub open spec fn maps_to<TPassable, R, F: FnOnce(TPassable) -> R>(
    outcome: PipelineResult<TPassable>,
    destination: F,
    result: PipelineResult<R>,
) -> bool {
    match outcome {
        Ok(value) => result matches Ok(mapped) && call_ensures(destination, (value,), mapped),
        Err(error) => result == Err::<R, PipelineError>(error),
    }
}

/// Whether `result` is what recovering `outcome` with `recovery` gives: a
/// value passes unchanged, `InputMissing` stays an error, and any other
/// error is replaced by a value of `recovery` for it.
pub open spec fn recovers_to<TPassable, F: FnOnce(PipelineError) -> TPassable>(
    outcome: PipelineResult<TPassable>,
    recovery: F,
    result: PipelineResult<TPassable>,
) -> bool {
    match outcome {
        Ok(value) => result == Ok::<TPassable, PipelineError>(value),
        Err(PipelineError::InputMissing) => result matches Err(PipelineError::InputMissing),
        Err(error) => result matches Ok(recovered) && call_ensures(recovery, (error,), recovered),
    }
}

/// Applies `destination` to the value of a successful outcome; an error is
/// returned unchanged.
pub fn map_outcome<TPassable, R, F: FnOnce(TPassable) -> R>(
    outcome: PipelineResult<TPassable>,
    destination: F,
) -> (result: PipelineResult<R>)
    requires
        outcome matches Ok(value) ==> call_requires(destination, (value,)),
    ensures
        maps_to(outcome, destination, result),
{
    match outcome {
        Ok(value) => Ok(destination(value)),
        Err(error) => Err(error),
    }
}

/// Recovers a failed outcome with `recovery`: a value is returned
/// unchanged, `InputMissing` is returned as it is, and any other error is
/// handed to `recovery`, whose value becomes the result.
pub fn recover_outcome<TPassable, F: FnOnce(PipelineError) -> TPassable>(
    outcome: PipelineResult<TPassable>,
    recovery: F,
) -> (result: PipelineResult<TPassable>)
    requires
        outcome matches Err(error) ==> (!(error is InputMissing) ==> call_requires(
            recovery,
            (error,),
        )),
    ensures
        recovers_to(outcome, recovery, result),
{
    match outcome {
        Ok(passable) => Ok(passable),
        Err(PipelineError::InputMissing) => Err(PipelineError::InputMissing),
        Err(error) => Ok(recovery(error)),
    }
}

impl<TPassable, TError> Default for Pipeline<TPassable, TError> {
    fn default() -> (pipeline: Self)
        ensures
            pipeline.passable() is None,
            pipeline.steps() == Seq::<StepBehavior<TPassable, TError>>::empty(),
            pipeline.obeying() == Seq::<bool>::empty(),
            pipeline.specified(),
            pipeline.callback() is None,
    {
        Self::new()
    }
}

} // verus!
