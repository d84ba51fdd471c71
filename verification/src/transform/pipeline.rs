use vstd::prelude::*;

use crate::observer::{
    all_shown, closure_observation, observation, erase_observer, observations, Observation, Observer, ObserverFn,
};
use crate::transform::error::{PipelineError, PipelineResult};
use crate::transform::pipe::{
    all_obey, described_run, lemma_appended_steps, lemma_obeying_steps_describe_runs, produced,
    run_boxed, run_transforms, transform_behavior, transform_behaviors, transform_obeying, Pipe,
    TransformBehavior,
};
use crate::transform::tapped::Taps;
use crate::transform::utility::{failure_of, require_passable};
use crate::utility::listed;

verus! {

/// Whether `recovered` is a value that `f` can return for some step
/// failure.
pub open spec fn recovers_step_failure<T, F: FnOnce(PipelineError) -> T>(
    f: F,
    recovered: T,
) -> bool {
    exists|failure: PipelineError|
        failure is StepFailure && #[trigger] call_ensures(f, (failure,), recovered)
}

/// A list of one step behaves as that step, and keeps to its description
/// exactly when the step does.
proof fn lemma_single_step<T, E>(added: Seq<Box<dyn Pipe<T, E>>>)
    requires
        added.len() == 1,
    ensures
        transform_behaviors(added) == seq![transform_behavior(&added[0])],
        transform_obeying(added) == seq![added[0].obeys_handle_spec()],
        all_obey(added) == added[0].obeys_handle_spec(),
{
    assert(transform_behaviors(added) =~= seq![transform_behavior(&added[0])]);
    assert(transform_obeying(added) =~= seq![added[0].obeys_handle_spec()]);
}

/// A pipeline that hands the value through its steps one after another.
///
/// It stores an optional input value, the ordered steps, and taps that are
/// shown each value a step produces when the pipeline finishes with
/// `then_return`.
#[verifier::reject_recursive_types(T)]
#[verifier::reject_recursive_types(E)]
pub struct Pipeline<T, E> {
    passable: Option<T>,
    pipes: Vec<Box<dyn Pipe<T, E>>>,
    taps: Taps<T>,
}

impl<T, E: std::fmt::Debug> Pipeline<T, E> where PipelineError: From<E> {
    /// The value that the pipeline will process, if one was sent.
    pub closed spec fn passable(self) -> Option<T> {
        self.passable
    }

    /// The behaviours of the pipeline's steps, in execution order.
    pub closed spec fn steps(self) -> Seq<TransformBehavior<T, E>> {
        transform_behaviors(self.pipes@)
    }

    /// Whether every step keeps to its own description.
    pub closed spec fn specified(self) -> bool {
        all_obey(self.pipes@)
    }

    /// Whether each step keeps to its own description, in execution order.
    pub closed spec fn obeying(self) -> Seq<bool> {
        transform_obeying(self.pipes@)
    }

    /// Whether the run on `passable` is fixed by the steps' descriptions:
    /// every step it reaches keeps to its own.
    pub open spec fn described_on(self, passable: T) -> bool {
        described_run(self.steps(), self.obeying(), passable)
    }

    /// When every step keeps to its own description, every run is fixed by
    /// the descriptions.
    pub proof fn lemma_specified_runs_are_described(self, passable: T)
        requires
            self.specified(),
        ensures
            self.described_on(passable),
    {
        lemma_obeying_steps_describe_runs(self.pipes@, passable);
    }

    /// What each registered tap states of a value it is shown, in the order
    /// the taps were added.
    pub closed spec fn taps(self) -> Seq<Observation<T>> {
        self.taps.observations()
    }

    /// Takes the pipeline apart into its value, its steps and its taps.
    pub(crate) fn into_parts(self) -> (parts: (Option<T>, Vec<Box<dyn Pipe<T, E>>>, Taps<T>))
        ensures
            parts.0 == self.passable(),
            transform_behaviors(parts.1@) == self.steps(),
            transform_obeying(parts.1@) == self.obeying(),
            parts.2.observations() == self.taps(),
    {
        let Pipeline { passable, pipes, taps } = self;
        (passable, pipes, taps)
    }

    /// Creates a new, empty pipeline instance.
    pub fn new() -> (pipeline: Self)
        ensures
            pipeline.passable() is None,
            pipeline.steps() == Seq::<TransformBehavior<T, E>>::empty(),
            pipeline.obeying() == Seq::<bool>::empty(),
            pipeline.specified(),
            pipeline.taps() == Seq::<Observation<T>>::empty(),
    {
        let pipeline = Pipeline { passable: None, pipes: Vec::new(), taps: Taps::new() };
        assert(pipeline.steps() =~= Seq::<TransformBehavior<T, E>>::empty());
        assert(pipeline.obeying() =~= Seq::<bool>::empty());
        pipeline
    }

    /// Provides the initial passable value to the pipeline.
    pub fn send(self, passable: T) -> (pipeline: Self)
        ensures
            pipeline.passable() == Some(passable),
            pipeline.steps() == self.steps(),
            pipeline.obeying() == self.obeying(),
            pipeline.specified() == self.specified(),
            pipeline.taps() == self.taps(),
    {
        let Pipeline { passable: _, pipes, taps } = self;
        Pipeline { passable: Some(passable), pipes, taps }
    }

    /// Runs the steps on the sent value and recovers from a failed step
    /// with `f`, which receives the step failure. The taps are not shown
    /// any value.
    pub fn rescue<F>(self, f: F) -> (result: PipelineResult<T>) where F: FnOnce(PipelineError) -> T
        requires
            forall|error: PipelineError| #[trigger] call_requires(f, (error,)),
        ensures
            match self.passable() {
                None => result matches Err(PipelineError::InputMissing),
                Some(passable) => self.described_on(passable) ==> match run_transforms(
                    self.steps(),
                    passable,
                ) {
                    Ok(value) => result == Ok::<T, PipelineError>(value),
                    Err(_) => result matches Ok(recovered) && recovers_step_failure(f, recovered),
                },
            },
            self.passable() is Some ==> result is Ok,
    {
        let Pipeline { passable, pipes, taps: _ } = self;
        let passable = match require_passable(passable) {
            Ok(passable) => passable,
            Err(error) => return Err(error),
        };
        let ghost start = passable;
        let outcome = run_boxed(&pipes, passable);
        assert(self.described_on(start) ==> outcome == run_transforms(self.steps(), start));
        match outcome {
            Ok(value) => Ok(value),
            Err(err) => {
                let failure = failure_of(&err);
                let ghost handed = failure;
                let recovered = f(failure);
                assert(handed is StepFailure && call_ensures(f, (handed,), recovered));
                assert(recovers_step_failure(f, recovered));
                Ok(recovered)
            },
        }
    }

    /// Observes the current pipeline passable without modifying it: `f` is
    /// shown each value that a step produces during `then_return`.
    pub fn tap<F>(self, f: F) -> (pipeline: Self) where F: Fn(&T) + 'static, T: 'static
        requires
            forall|value: &T| #[trigger] call_requires(f, (value,)),
        ensures
            pipeline.passable() == self.passable(),
            pipeline.steps() == self.steps(),
            pipeline.obeying() == self.obeying(),
            pipeline.specified() == self.specified(),
            pipeline.taps() == self.taps().push(closure_observation::<T, F>(f)),
    {
        let Pipeline { passable, pipes, taps } = self;
        let wrapped = ObserverFn::new(f);
        let ghost shown = wrapped;
        let erased = erase_observer(wrapped);
        proof {
            let stored = erased.unwrap();
            let expected = closure_observation::<T, F>(f);
            assert forall|value: T| #[trigger] observation(&stored)(value) == expected(value) by {
                assert(stored.observed(&value) == shown.observed(&value));
            }
            assert(observation(&stored) =~= expected);
        }
        let taps = taps.add(erased);
        Pipeline { passable, pipes, taps }
    }

    /// Adds a sequence of steps after the existing ones.
    pub fn through(self, pipes: Vec<Box<dyn Pipe<T, E>>>) -> (pipeline: Self)
        ensures
            pipeline.passable() == self.passable(),
            pipeline.steps() == self.steps() + transform_behaviors(pipes@),
            pipeline.obeying() == self.obeying() + transform_obeying(pipes@),
            pipeline.specified() == (self.specified() && all_obey(pipes@)),
            pipeline.taps() == self.taps(),
    {
        let Pipeline { passable, pipes: mut existing, taps } = self;
        let ghost before = existing@;
        let mut added = pipes;
        let ghost added_seq = added@;
        existing.append(&mut added);
        proof {
            assert(existing@ =~= before + added_seq);
            lemma_appended_steps(before, added_seq);
        }
        Pipeline { passable, pipes: existing, taps }
    }

    /// Runs the steps on the sent value and applies `f` to the final value.
    /// The taps are not shown any value.
    pub fn then<F, R>(self, f: F) -> (result: PipelineResult<R>) where F: FnOnce(T) -> R
        requires
            forall|value: T| #[trigger] call_requires(f, (value,)),
        ensures
            match self.passable() {
                None => result matches Err(PipelineError::InputMissing),
                Some(passable) => self.described_on(passable) ==> match run_transforms(
                    self.steps(),
                    passable,
                ) {
                    Ok(value) => result matches Ok(mapped) && call_ensures(f, (value,), mapped),
                    Err(_) => result matches Err(PipelineError::StepFailure(_)),
                },
            },
            self.passable() is Some ==> (result is Err ==> result matches Err(
                PipelineError::StepFailure(_),
            )),
    {
        let Pipeline { passable, pipes, taps: _ } = self;
        let passable = match require_passable(passable) {
            Ok(passable) => passable,
            Err(error) => return Err(error),
        };
        match run_boxed(&pipes, passable) {
            Ok(value) => Ok(f(value)),
            Err(err) => Err(failure_of(&err)),
        }
    }

    /// Adds `step` after the existing steps when `condition` is `true`.
    pub fn when(self, condition: bool, step: Box<dyn Pipe<T, E>>) -> (pipeline: Self)
        ensures
            pipeline.passable() == self.passable(),
            pipeline.taps() == self.taps(),
            !condition ==> pipeline.steps() == self.steps(),
            !condition ==> pipeline.obeying() == self.obeying(),
            !condition ==> pipeline.specified() == self.specified(),
            condition ==> pipeline.steps().len() == self.steps().len() + 1,
            condition ==> pipeline.steps().drop_last() == self.steps(),
            condition ==> pipeline.steps().last() == transform_behavior(&step),
            condition ==> pipeline.obeying().len() == self.obeying().len() + 1,
            condition ==> pipeline.obeying().drop_last() == self.obeying(),
            condition ==> pipeline.obeying().last() == step.obeys_handle_spec(),
            condition ==> pipeline.specified() == (self.specified() && step.obeys_handle_spec()),
    {
        if condition {
            let mut added = Vec::new();
            added.push(step);
            proof {
                assert(added@[0] == step);
                lemma_single_step(added@);
            }
            let pipeline = self.through(added);
            proof {
                assert(pipeline.steps().drop_last() =~= self.steps());
                assert(pipeline.obeying().drop_last() =~= self.obeying());
            }
            pipeline
        } else {
            self
        }
    }

    /// Adds `step` after the existing steps when `condition` is `false`.
    pub fn unless(self, condition: bool, step: Box<dyn Pipe<T, E>>) -> (pipeline: Self)
        ensures
            pipeline.passable() == self.passable(),
            pipeline.taps() == self.taps(),
            condition ==> pipeline.steps() == self.steps(),
            condition ==> pipeline.obeying() == self.obeying(),
            condition ==> pipeline.specified() == self.specified(),
            !condition ==> pipeline.steps().len() == self.steps().len() + 1,
            !condition ==> pipeline.steps().drop_last() == self.steps(),
            !condition ==> pipeline.steps().last() == transform_behavior(&step),
            !condition ==> pipeline.obeying().len() == self.obeying().len() + 1,
            !condition ==> pipeline.obeying().drop_last() == self.obeying(),
            !condition ==> pipeline.obeying().last() == step.obeys_handle_spec(),
            !condition ==> pipeline.specified() == (self.specified() && step.obeys_handle_spec()),
    {
        if !condition {
            let mut added = Vec::new();
            added.push(step);
            proof {
                assert(added@[0] == step);
                lemma_single_step(added@);
            }
            let pipeline = self.through(added);
            proof {
                assert(pipeline.steps().drop_last() =~= self.steps());
                assert(pipeline.obeying().drop_last() =~= self.obeying());
            }
            pipeline
        } else {
            self
        }
    }
}

} // verus!
