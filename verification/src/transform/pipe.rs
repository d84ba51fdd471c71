use vstd::prelude::*;
use std::sync::Arc;


verus! {

/// A pipeline step that maps the passable value to a new one or fails.
///
/// An implementation may describe what it does: `spec_handle` gives the
/// step's result for a value, and `obeys_handle_spec` says that `handle`
/// keeps to it. Implementations that do not describe themselves claim
/// nothing.
pub trait Pipe<T, E> {
    /// Whether `handle` returns what `spec_handle` describes.
    open spec fn obeys_handle_spec(&self) -> bool {
        false
    }

    /// The result of this step for `passable`.
    open spec fn spec_handle(&self, passable: T) -> Result<T, E> {
        arbitrary()
    }

    /// Maps the passable value.
    fn handle(&self, passable: T) -> (result: Result<T, E>)
        ensures
            self.obeys_handle_spec() ==> result == self.spec_handle(passable),
    ;
}

/// A shared pipe behaves as the pipe it shares.
impl<T, E, P: Pipe<T, E>> Pipe<T, E> for Arc<P> {
    open spec fn obeys_handle_spec(&self) -> bool {
        (**self).obeys_handle_spec()
    }

    open spec fn spec_handle(&self, passable: T) -> Result<T, E> {
        (**self).spec_handle(passable)
    }

    fn handle(&self, passable: T) -> (result: Result<T, E>) {
        (**self).handle(passable)
    }
}

/// What a step does with the value it receives.
pub type TransformBehavior<T, E> = spec_fn(T) -> Result<T, E>;

/// The behaviour of a boxed step.
pub open spec fn transform_behavior<T, E>(step: &Box<dyn Pipe<T, E>>) -> TransformBehavior<T, E> {
    |passable: T| step.spec_handle(passable)
}

/// The behaviours of a list of boxed steps, in order.
pub open spec fn transform_behaviors<T, E>(steps: Seq<Box<dyn Pipe<T, E>>>) -> Seq<
    TransformBehavior<T, E>,
> {
    steps.map_values(|step: Box<dyn Pipe<T, E>>| transform_behavior(&step))
}

/// Whether every step of `steps` keeps to its own description.
pub open spec fn all_obey<T, E>(steps: Seq<Box<dyn Pipe<T, E>>>) -> bool {
    forall|i: int| 0 <= i < steps.len() ==> #[trigger] steps[i].obeys_handle_spec()
}

/// The result of running `steps` in order on `passable`: each step
/// receives the value produced by the one before it, and the first failure
/// ends the run.
pub open spec fn run_transforms<T, E>(steps: Seq<TransformBehavior<T, E>>, passable: T) -> Result<
    T,
    E,
>
    decreases steps.len(),
{
    if steps.len() == 0 {
        Ok(passable)
    } else {
        match (steps[0])(passable) {
            Ok(value) => run_transforms(steps.drop_first(), value),
            Err(error) => Err(error),
        }
    }
}

/// The values that `steps` produce in order from `passable`: each
/// successful step's value, up to the first failure.
pub open spec fn produced<T, E>(steps: Seq<TransformBehavior<T, E>>, passable: T) -> Seq<T>
    decreases steps.len(),
{
    if steps.len() == 0 {
        Seq::empty()
    } else {
        match (steps[0])(passable) {
            Ok(value) => seq![value] + produced(steps.drop_first(), value),
            Err(_) => Seq::empty(),
        }
    }
}

/// Moves `step` into a box as a type-erased step; the result is always
/// `Some`.
///
/// Calls `Box::new` and lets the box be coerced to a trait object. The
/// contract claims that calls on the trait object dispatch to `step`'s own
/// implementation, so that the boxed step behaves as `step` does.
#[verifier::external_body]
pub(crate) fn boxed_step<T, E, P: Pipe<T, E> + 'static>(step: P) -> (boxed: Option<
    Box<dyn Pipe<T, E>>,
>)
    ensures
        boxed is Some,
        boxed.unwrap().obeys_handle_spec() == step.obeys_handle_spec(),
        forall|passable: T|
            #[trigger] boxed.unwrap().spec_handle(passable) == step.spec_handle(passable),
{
    Some(Box::new(step))
}

/// Whether each of `steps` keeps to its own description, in order.
pub open spec fn transform_obeying<T, E>(steps: Seq<Box<dyn Pipe<T, E>>>) -> Seq<bool> {
    steps.map_values(|step: Box<dyn Pipe<T, E>>| step.obeys_handle_spec())
}

/// Whether the run of `steps` on `passable` is fixed by their
/// descriptions: every step that the run reaches keeps to its own
/// description (`obeying`), up to the first failure. Steps after a failure
/// are never reached and need not describe themselves.
pub open spec fn described_run<T, E>(
    steps: Seq<TransformBehavior<T, E>>,
    obeying: Seq<bool>,
    passable: T,
) -> bool
    decreases steps.len(),
{
    if steps.len() == 0 {
        true
    } else {
        obeying.len() > 0 && obeying[0] && match (steps[0])(passable) {
            Ok(value) => described_run(steps.drop_first(), obeying.drop_first(), value),
            Err(_) => true,
        }
    }
}

/// Appending lists of steps appends their behaviours and descriptions.
pub proof fn lemma_appended_steps<T, E>(
    before: Seq<Box<dyn Pipe<T, E>>>,
    added: Seq<Box<dyn Pipe<T, E>>>,
)
    ensures
        transform_behaviors(before + added) == transform_behaviors(before) + transform_behaviors(
            added,
        ),
        transform_obeying(before + added) == transform_obeying(before) + transform_obeying(added),
        all_obey(before + added) == (all_obey(before) && all_obey(added)),
{
    let all = before + added;
    assert(transform_behaviors(all) =~= transform_behaviors(before) + transform_behaviors(added));
    assert(transform_obeying(all) =~= transform_obeying(before) + transform_obeying(added));
    if all_obey(all) {
        assert forall|i: int| 0 <= i < before.len() implies #[trigger] before[i].obeys_handle_spec() by {
            assert(all[i] == before[i]);
        }
        assert forall|i: int| 0 <= i < added.len() implies #[trigger] added[i].obeys_handle_spec() by {
            assert(all[before.len() + i] == added[i]);
        }
    }
    if all_obey(before) && all_obey(added) {
        assert forall|i: int| 0 <= i < all.len() implies #[trigger] all[i].obeys_handle_spec() by {
            if i < before.len() {
                assert(all[i] == before[i]);
            } else {
                assert(all[i] == added[i - before.len()]);
            }
        }
    }
}

/// When every step keeps to its own description, every run is fixed by
/// the descriptions.
pub proof fn lemma_obeying_steps_describe_runs<T, E>(steps: Seq<Box<dyn Pipe<T, E>>>, passable: T)
    requires
        all_obey(steps),
    ensures
        described_run(transform_behaviors(steps), transform_obeying(steps), passable),
    decreases steps.len(),
{
    if steps.len() > 0 {
        let rest = steps.drop_first();
        assert(transform_behaviors(steps).drop_first() =~= transform_behaviors(rest));
        assert(transform_obeying(steps).drop_first() =~= transform_obeying(rest));
        assert(steps[0].obeys_handle_spec());
        assert forall|i: int| 0 <= i < rest.len() implies #[trigger] rest[i].obeys_handle_spec() by {
            assert(rest[i] == steps[i + 1]);
        }
        match (transform_behaviors(steps)[0])(passable) {
            Ok(value) => lemma_obeying_steps_describe_runs(rest, value),
            Err(_) => {},
        }
    }
}

/// Runs the boxed `steps` in order on `passable`: each step receives the
/// value produced by the one before it, and the first failure ends the run
/// with that step's error. Nothing is shown to any observer.
pub(crate) fn run_boxed<T, E>(steps: &Vec<Box<dyn Pipe<T, E>>>, passable: T) -> (result: Result<
    T,
    E,
>)
    ensures
        described_run(transform_behaviors(steps@), transform_obeying(steps@), passable) ==> result
            == run_transforms(transform_behaviors(steps@), passable),
{
    let ghost behaviors = transform_behaviors(steps@);
    let ghost flags = transform_obeying(steps@);
    let ghost start = passable;
    let mut current = passable;
    let mut index: usize = 0;
    assert(behaviors.skip(0) =~= behaviors);
    assert(flags.skip(0) =~= flags);
    while index < steps.len()
        invariant
            index <= steps.len(),
            start == passable,
            behaviors == transform_behaviors(steps@),
            flags == transform_obeying(steps@),
            described_run(behaviors, flags, start) ==> described_run(
                behaviors.skip(index as int),
                flags.skip(index as int),
                current,
            ),
            described_run(behaviors, flags, start) ==> run_transforms(behaviors, start)
                == run_transforms(behaviors.skip(index as int), current),
        decreases steps.len() - index,
    {
        let ghost before = current;
        let outcome = steps[index].handle(current);
        proof {
            assert(behaviors.skip(index as int).drop_first() =~= behaviors.skip(index + 1));
            assert(flags.skip(index as int).drop_first() =~= flags.skip(index + 1));
            assert(behaviors.len() == steps@.len());
            assert(behaviors.skip(index as int)[0] == behaviors[index as int]);
            assert(flags.skip(index as int)[0] == flags[index as int]);
            if described_run(behaviors, flags, start) {
                assert(steps@[index as int].obeys_handle_spec());
                assert((behaviors[index as int])(before) == outcome);
            }
        }
        match outcome {
            Ok(value) => {
                current = value;
            },
            Err(error) => {
                return Err(error);
            },
        }
        index = index + 1;
    }
    assert(behaviors.skip(index as int) =~= Seq::<TransformBehavior<T, E>>::empty());
    Ok(current)
}

} // verus!
