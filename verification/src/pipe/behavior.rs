use vstd::prelude::*;

use crate::types::{PipelineResult, PipelineStep};

verus! {

/// What a step does, as a function of the value it receives and of the
/// behaviour of the steps after it.
pub type StepBehavior<TPassable, TError> = spec_fn(
    TPassable,
    spec_fn(TPassable) -> PipelineResult<TPassable, TError>,
) -> PipelineResult<TPassable, TError>;

/// The behaviour of a stored step.
pub open spec fn step_behavior<TPassable, TError>(
    step: &PipelineStep<TPassable, TError>,
) -> StepBehavior<TPassable, TError> {
    |passable: TPassable, rest: spec_fn(TPassable) -> PipelineResult<TPassable, TError>|
        step.spec_handle(passable, rest)
}

/// Whether every step of `steps` keeps to its own description.
pub open spec fn all_obey<TPassable, TError>(steps: Seq<PipelineStep<TPassable, TError>>) -> bool {
    forall|i: int| 0 <= i < steps.len() ==> #[trigger] steps[i].obeys_handle_spec()
}

/// The behaviours of a list of stored steps, in order.
pub open spec fn behaviors<TPassable, TError>(
    steps: Seq<PipelineStep<TPassable, TError>>,
) -> Seq<StepBehavior<TPassable, TError>> {
    steps.map_values(|step: PipelineStep<TPassable, TError>| step_behavior(&step))
}

/// The result of running `steps` in order on `passable`: the first step
/// receives the value and the rest of the chain as its continuation; after
/// the last step the value handed on is the result.
pub open spec fn run_steps<TPassable, TError>(
    steps: Seq<StepBehavior<TPassable, TError>>,
    passable: TPassable,
) -> PipelineResult<TPassable, TError>
    decreases steps.len(), 0int,
{
    if steps.len() == 0 {
        Ok(passable)
    } else {
        (steps[0])(passable, rest_of(steps.drop_first()))
    }
}

/// The behaviour of a chain of steps as a continuation.
pub open spec fn rest_of<TPassable, TError>(
    steps: Seq<StepBehavior<TPassable, TError>>,
) -> spec_fn(TPassable) -> PipelineResult<TPassable, TError>
    decreases steps.len(), 1int,
{
    |passable: TPassable| run_steps(steps, passable)
}

/// Whether `step` never consults the steps after it.
pub open spec fn stops_chain<TPassable, TError>(step: StepBehavior<TPassable, TError>) -> bool {
    forall|
        passable: TPassable,
        one: spec_fn(TPassable) -> PipelineResult<TPassable, TError>,
        other: spec_fn(TPassable) -> PipelineResult<TPassable, TError>,
    | #[trigger] step(passable, one) == #[trigger] step(passable, other)
}

/// Whether each of `steps` keeps to its own description, in order.
pub open spec fn obeying<TPassable, TError>(steps: Seq<PipelineStep<TPassable, TError>>) -> Seq<
    bool,
> {
    steps.map_values(|step: PipelineStep<TPassable, TError>| step.obeys_handle_spec())
}

/// Whether a run of `steps` is fixed by their descriptions: the steps keep
/// to their own descriptions (`obeying`) up to one that never consults the
/// steps after it, or to the end. Steps after such a step are never reached
/// and need not describe themselves.
pub open spec fn settles<TPassable, TError>(
    steps: Seq<StepBehavior<TPassable, TError>>,
    obeying: Seq<bool>,
) -> bool
    decreases steps.len(),
{
    if steps.len() == 0 {
        true
    } else {
        obeying.len() > 0 && obeying[0] && (stops_chain(steps[0]) || settles(
            steps.drop_first(),
            obeying.drop_first(),
        ))
    }
}

/// Appending lists of steps appends their behaviours and descriptions.
pub proof fn lemma_appended_steps<TPassable, TError>(
    before: Seq<PipelineStep<TPassable, TError>>,
    added: Seq<PipelineStep<TPassable, TError>>,
)
    ensures
        behaviors(before + added) == behaviors(before) + behaviors(added),
        obeying(before + added) == obeying(before) + obeying(added),
        all_obey(before + added) == (all_obey(before) && all_obey(added)),
{
    let all = before + added;
    assert(behaviors(all) =~= behaviors(before) + behaviors(added));
    assert(obeying(all) =~= obeying(before) + obeying(added));
    if all_obey(all) {
        assert forall|i: int| 0 <= i < before.len() implies #[trigger] before[i].obeys_handle_spec() by {
            assert(all[i] == before[i]);
        }
        assert forall|i: int| 0 <= i < added.len() implies #[trigger] added[i].obeys_handle_spec() by {
            assert(all[before.len() + i] == added[i]);
        }
    }
    if all_obey(before) && all_obey(added) {
        assert forall|i: int| 0 <= i < all.len() implies #[trigger] all[i].obeys_handle_spec() by {
            if i < before.len() {
                assert(all[i] == before[i]);
            } else {
                assert(all[i] == added[i - before.len()]);
            }
        }
    }
}

/// When every step keeps to its own description, every run is fixed by the
/// descriptions.
pub proof fn lemma_obeying_steps_settle<TPassable, TError>(
    steps: Seq<PipelineStep<TPassable, TError>>,
)
    requires
        all_obey(steps),
    ensures
        settles(behaviors(steps), obeying(steps)),
    decreases steps.len(),
{
    if steps.len() > 0 {
        let rest = steps.drop_first();
        assert(behaviors(steps).drop_first() =~= behaviors(rest));
        assert(obeying(steps).drop_first() =~= obeying(rest));
        assert(steps[0].obeys_handle_spec());
        assert forall|i: int| 0 <= i < rest.len() implies #[trigger] rest[i].obeys_handle_spec() by {
            assert(rest[i] == steps[i + 1]);
        }
        lemma_obeying_steps_settle(rest);
    }
}

} // verus!
