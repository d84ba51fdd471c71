use vstd::prelude::*;

use crate::observer::{all_shown, observation, observations, Observation, Observer};
use crate::transform::pipe::{
    described_run, produced, run_transforms, transform_behaviors, transform_obeying, Pipe,
    TransformBehavior,
};
use crate::transform::utility::run_taps;
use crate::utility::listed;

verus! {

/// The taps of a pipeline: observers that are shown, in the order they
/// were added, each value that a step produces. Only `run_tapped`, which
/// is visible to the pipeline's `then_return` alone, shows them values.
#[verifier::reject_recursive_types(T)]
pub struct Taps<T> {
    observers: Vec<Box<dyn Observer<T>>>,
}

impl<T> Taps<T> {
    /// What each tap states of a value it is shown, in the order the taps
    /// were added.
    pub closed spec fn observations(self) -> Seq<Observation<T>> {
        observations(self.observers@)
    }

    /// No taps.
    pub(crate) fn new() -> (taps: Self)
        ensures
            taps.observations() == Seq::<Observation<T>>::empty(),
    {
        let taps = Taps { observers: Vec::new() };
        assert(taps.observations() =~= Seq::<Observation<T>>::empty());
        taps
    }

    /// Adds the observer held by `observer`, if there is one, after the
    /// existing taps.
    pub(crate) fn add(self, observer: Option<Box<dyn Observer<T>>>) -> (taps: Self)
        ensures
            taps.observations() == match observer {
                Some(added) => self.observations().push(observation(&added)),
                None => self.observations(),
            },
    {
        let Taps { mut observers } = self;
        let ghost before = observers@;
        let mut added = listed(observer);
        let ghost single = added@;
        observers.append(&mut added);
        proof {
            assert(observers@ =~= before + single);
            if observer is Some {
                assert(observations(observers@) =~= observations(before).push(
                    observation(&single[0]),
                ));
            } else {
                assert(observations(observers@) =~= observations(before));
            }
        }
        Taps { observers }
    }
}

/// Runs the boxed `steps` in order on `passable`, showing each value that
/// a step produces to every tap. Stops at the first failure and returns
/// that step's error. Also returns the values the taps were shown, in
/// order, each to every tap: exactly one per successful step.
pub(super) fn run_tapped<T, E>(
    steps: &Vec<Box<dyn Pipe<T, E>>>,
    taps: &Taps<T>,
    passable: T,
) -> (run: (Result<T, E>, Ghost<Seq<T>>))
    ensures
        described_run(transform_behaviors(steps@), transform_obeying(steps@), passable) ==> run.0
            == run_transforms(transform_behaviors(steps@), passable),
        described_run(transform_behaviors(steps@), transform_obeying(steps@), passable) ==> run.1@
            == produced(transform_behaviors(steps@), passable),
        all_shown(taps.observations(), run.1@),
{
    let ghost behaviors = transform_behaviors(steps@);
    let ghost flags = transform_obeying(steps@);
    let ghost start = passable;
    let ghost mut seen: Seq<T> = Seq::empty();
    let mut current = passable;
    let mut index: usize = 0;
    assert(behaviors.skip(0) =~= behaviors);
    assert(flags.skip(0) =~= flags);
    assert(seen + produced(behaviors, start) =~= produced(behaviors, start));
    while index < steps.len()
        invariant
            index <= steps.len(),
            start == passable,
            behaviors == transform_behaviors(steps@),
            flags == transform_obeying(steps@),
            described_run(behaviors, flags, start) ==> described_run(
                behaviors.skip(index as int),
                flags.skip(index as int),
                current,
            ),
            described_run(behaviors, flags, start) ==> run_transforms(behaviors, start)
                == run_transforms(behaviors.skip(index as int), current),
            described_run(behaviors, flags, start) ==> produced(behaviors, start) == seen
                + produced(behaviors.skip(index as int), current),
            all_shown(taps.observations(), seen),
        decreases steps.len() - index,
    {
        let ghost before = current;
        let outcome = steps[index].handle(current);
        proof {
            assert(behaviors.skip(index as int).drop_first() =~= behaviors.skip(index + 1));
            assert(flags.skip(index as int).drop_first() =~= flags.skip(index + 1));
            assert(behaviors.len() == steps@.len());
            assert(behaviors.skip(index as int).len() > 0);
            assert(behaviors.skip(index as int)[0] == behaviors[index as int]);
            assert(flags.skip(index as int)[0] == flags[index as int]);
            if described_run(behaviors, flags, start) {
                assert(steps@[index as int].obeys_handle_spec());
                assert((behaviors[index as int])(before) == outcome);
            }
        }
        match outcome {
            Ok(value) => {
                current = value;
                run_taps(&taps.observers, &current);
                proof {
                    let shown = taps.observations();
                    assert forall|j: int| 0 <= j < shown.len() implies (#[trigger] shown[j])(
                        current,
                    ) by {
                        assert(taps.observers@[j].observed(&current));
                    }
                    if described_run(behaviors, flags, start) {
                        assert(produced(behaviors.skip(index as int), before) =~= seq![current]
                            + produced(behaviors.skip(index + 1), current));
                        assert(seen + produced(behaviors.skip(index as int), before) =~= seen.push(
                            current,
                        ) + produced(behaviors.skip(index + 1), current));
                    }
                    let grown = seen.push(current);
                    assert forall|i: int, j: int|
                        0 <= i < grown.len() && 0 <= j < shown.len() implies #[trigger] (shown[j])(
                        #[trigger] grown[i],
                    ) by {
                        if i < seen.len() {
                            assert(grown[i] == seen[i]);
                        }
                    }
                    seen = grown;
                }
            },
            Err(error) => {
                proof {
                    if described_run(behaviors, flags, start) {
                        assert(produced(behaviors.skip(index as int), before) =~= Seq::<T>::empty());
                        assert(seen + Seq::<T>::empty() =~= seen);
                    }
                }
                return (Err(error), Ghost(seen));
            },
        }
        index = index + 1;
    }
    assert(behaviors.skip(index as int) =~= Seq::<TransformBehavior<T, E>>::empty());
    assert(seen + Seq::<T>::empty() =~= seen);
    (Ok(current), Ghost(seen))
}

} // verus!
