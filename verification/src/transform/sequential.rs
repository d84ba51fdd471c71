use vstd::prelude::*;

use crate::utility::listed;
use crate::transform::pipe::{
    all_obey, boxed_step, described_run, lemma_appended_steps, lemma_obeying_steps_describe_runs,
    run_boxed, run_transforms, transform_behavior, transform_behaviors, transform_obeying, Pipe,
    TransformBehavior,
};

verus! {

/// The behaviour of a step given as a value of a concrete pipe type.
pub open spec fn pipe_behavior<T, E, P: Pipe<T, E>>(step: P) -> TransformBehavior<T, E> {
    |passable: T| step.spec_handle(passable)
}

/// A list holding only the boxed form of `step` behaves as `step` and
/// keeps to its description exactly when `step` does.
pub proof fn lemma_one_boxed_step<T, E, P: Pipe<T, E>>(added: Seq<Box<dyn Pipe<T, E>>>, step: P)
    requires
        added.len() == 1,
        added[0].obeys_handle_spec() == step.obeys_handle_spec(),
        forall|passable: T| #[trigger] added[0].spec_handle(passable) == step.spec_handle(passable),
    ensures
        transform_behaviors(added) == seq![pipe_behavior(step)],
        transform_obeying(added) == seq![step.obeys_handle_spec()],
        all_obey(added) == step.obeys_handle_spec(),
{
    assert(transform_behavior(&added[0]) =~= pipe_behavior(step));
    assert(transform_behaviors(added) =~= seq![pipe_behavior(step)]);
    assert(transform_obeying(added) =~= seq![step.obeys_handle_spec()]);
}

/// An ordered list of steps that is run on values handed to `execute`.
#[verifier::reject_recursive_types(T)]
#[verifier::reject_recursive_types(E)]
pub struct Pipeline<T, E> {
    steps: Vec<Box<dyn Pipe<T, E>>>,
}

impl<T, E> Pipeline<T, E> {
    /// The behaviours of the steps, in execution order.
    pub closed spec fn steps(self) -> Seq<TransformBehavior<T, E>> {
        transform_behaviors(self.steps@)
    }

    /// Whether every step keeps to its own description.
    pub closed spec fn specified(self) -> bool {
        all_obey(self.steps@)
    }

    /// Whether each step keeps to its own description, in execution order.
    pub closed spec fn obeying(self) -> Seq<bool> {
        transform_obeying(self.steps@)
    }

    /// Whether the run on `input` is fixed by the steps' descriptions:
    /// every step it reaches keeps to its own.
    pub open spec fn described_on(self, input: T) -> bool {
        described_run(self.steps(), self.obeying(), input)
    }

    /// When every step keeps to its own description, every run is fixed by
    /// the descriptions.
    pub proof fn lemma_specified_runs_are_described(self, input: T)
        requires
            self.specified(),
        ensures
            self.described_on(input),
    {
        lemma_obeying_steps_describe_runs(self.steps@, input);
    }

    /// Creates a pipeline without steps.
    pub fn new() -> (pipeline: Self)
        ensures
            pipeline.steps() == Seq::<TransformBehavior<T, E>>::empty(),
            pipeline.obeying() == Seq::<bool>::empty(),
            pipeline.specified(),
    {
        let pipeline = Pipeline { steps: Vec::new() };
        assert(pipeline.steps() =~= Seq::<TransformBehavior<T, E>>::empty());
        assert(pipeline.obeying() =~= Seq::<bool>::empty());
        pipeline
    }

    /// Adds `step` after the existing steps.
    pub fn add<P: Pipe<T, E> + 'static>(self, step: P) -> (pipeline: Self)
        ensures
            pipeline.steps() == self.steps().push(pipe_behavior(step)),
            pipeline.obeying() == self.obeying().push(step.obeys_handle_spec()),
            pipeline.specified() == (self.specified() && step.obeys_handle_spec()),
    {
        let Pipeline { mut steps } = self;
        let ghost before = steps@;
        let mut added = listed(boxed_step(step));
        let ghost added_seq = added@;
        steps.append(&mut added);
        proof {
            lemma_one_boxed_step(added_seq, step);
            assert(steps@ =~= before + added_seq);
            lemma_appended_steps(before, added_seq);
        }
        Pipeline { steps }
    }

    /// Runs the steps in order on `input`; the first failure ends the run
    /// and is returned.
    pub fn execute(&self, input: T) -> (result: Result<T, E>)
        ensures
            self.described_on(input) ==> result == run_transforms(self.steps(), input),
    {
        run_boxed(&self.steps, input)
    }
}

} // verus!
