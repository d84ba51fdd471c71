use vstd::prelude::*;

use crate::pipe::behavior::{rest_of, run_steps, stops_chain, StepBehavior};
use crate::errors::PipelineError;
use crate::pipeline::pipeline::converts_to;
use crate::transform::pipe::{described_run, produced, run_transforms, TransformBehavior};
use crate::types::PipelineResult;

verus! {

/// Runs `steps` in order on `passable`, with `last` standing for whatever
/// follows the final step.
pub open spec fn run_then<TPassable, TError>(
    steps: Seq<StepBehavior<TPassable, TError>>,
    last: spec_fn(TPassable) -> PipelineResult<TPassable, TError>,
    passable: TPassable,
) -> PipelineResult<TPassable, TError>
    decreases steps.len(), 0int,
{
    if steps.len() == 0 {
        last(passable)
    } else {
        (steps[0])(passable, then_of(steps.drop_first(), last))
    }
}

/// The behaviour of `steps` followed by `last`, as a continuation.
pub open spec fn then_of<TPassable, TError>(
    steps: Seq<StepBehavior<TPassable, TError>>,
    last: spec_fn(TPassable) -> PipelineResult<TPassable, TError>,
) -> spec_fn(TPassable) -> PipelineResult<TPassable, TError>
    decreases steps.len(), 1int,
{
    |passable: TPassable| run_then(steps, last, passable)
}

/// A pipeline without steps returns its input unchanged.
pub proof fn lemma_empty_pipeline_returns_input<TPassable, TError>(passable: TPassable)
    ensures
        run_steps(Seq::<StepBehavior<TPassable, TError>>::empty(), passable) == Ok::<
            TPassable,
            TError,
        >(passable),
{
}

/// Pipelines compose: running `first` followed by `second` is running
/// `first` with the whole of `second` as what comes after its last step.
pub proof fn lemma_concatenation<TPassable, TError>(
    first: Seq<StepBehavior<TPassable, TError>>,
    second: Seq<StepBehavior<TPassable, TError>>,
    passable: TPassable,
)
    ensures
        run_steps(first + second, passable) == run_then(first, rest_of(second), passable),
    decreases first.len(),
{
    if first.len() == 0 {
        assert(first + second =~= second);
    } else {
        let tail = first.drop_first();
        assert((first + second).drop_first() =~= tail + second);
        assert((first + second)[0] == first[0]);
        assert forall|value: TPassable|
            #[trigger] (rest_of(tail + second))(value) == (then_of(tail, rest_of(second)))(
                value,
            ) by {
            lemma_concatenation(tail, second, value);
        }
        assert(rest_of(tail + second) =~= then_of(tail, rest_of(second)));
    }
}

/// Whether `step` hands its value on unchanged and returns what comes back.
pub open spec fn passes_through<TPassable, TError>(step: StepBehavior<TPassable, TError>) -> bool {
    forall|passable: TPassable, rest: spec_fn(TPassable) -> PipelineResult<TPassable, TError>|
        #[trigger] step(passable, rest) == rest(passable)
}

/// Short-circuiting: once a step that does not call the rest of the chain
/// is reached, the steps after it do not matter.
pub proof fn lemma_short_circuit<TPassable, TError>(
    before: Seq<StepBehavior<TPassable, TError>>,
    stop: StepBehavior<TPassable, TError>,
    after: Seq<StepBehavior<TPassable, TError>>,
    passable: TPassable,
)
    requires
        stops_chain(stop),
    ensures
        run_steps(before.push(stop) + after, passable) == run_steps(before.push(stop), passable),
{
    let tail = seq![stop] + after;
    assert(before.push(stop) + after =~= before + tail);
    assert(before.push(stop) =~= before + seq![stop]);
    lemma_concatenation(before, tail, passable);
    lemma_concatenation(before, seq![stop], passable);
    assert forall|value: TPassable|
        #[trigger] (rest_of(tail))(value) == (rest_of(seq![stop]))(value) by {
        assert(tail[0] == stop);
        assert(seq![stop][0] == stop);
        assert(stop(value, rest_of(tail.drop_first())) == stop(
            value,
            rest_of(seq![stop].drop_first()),
        ));
    }
    assert(rest_of(tail) =~= rest_of(seq![stop]));
}

/// A step that only hands its value on can be added anywhere without
/// changing the result.
pub proof fn lemma_pass_through_is_neutral<TPassable, TError>(
    before: Seq<StepBehavior<TPassable, TError>>,
    step: StepBehavior<TPassable, TError>,
    after: Seq<StepBehavior<TPassable, TError>>,
    passable: TPassable,
)
    requires
        passes_through(step),
    ensures
        run_steps(before.push(step) + after, passable) == run_steps(before + after, passable),
{
    let tail = seq![step] + after;
    assert(before.push(step) + after =~= before + tail);
    lemma_concatenation(before, tail, passable);
    lemma_concatenation(before, after, passable);
    assert forall|value: TPassable|
        #[trigger] (rest_of(tail))(value) == (rest_of(after))(value) by {
        assert(tail[0] == step);
        assert(tail.drop_first() =~= after);
        assert(step(value, rest_of(after)) == (rest_of(after))(value));
    }
    assert(rest_of(tail) =~= rest_of(after));
}

/// The behaviour of a step that transforms the value with `transform` and
/// hands the result on.
pub open spec fn map_step<TPassable, TError>(
    transform: spec_fn(TPassable) -> TPassable,
) -> StepBehavior<TPassable, TError> {
    |passable: TPassable, rest: spec_fn(TPassable) -> PipelineResult<TPassable, TError>|
        rest(transform(passable))
}

/// Applies `transforms` to `passable`, first to last.
pub open spec fn apply_all<TPassable>(
    transforms: Seq<spec_fn(TPassable) -> TPassable>,
    passable: TPassable,
) -> TPassable
    decreases transforms.len(),
{
    if transforms.len() == 0 {
        passable
    } else {
        apply_all(transforms.drop_first(), (transforms[0])(passable))
    }
}

/// Steps run in the order they were added: a pipeline of transforming
/// steps returns the composition of the transforms, first step first.
pub proof fn lemma_transforms_compose_in_order<TPassable, TError>(
    transforms: Seq<spec_fn(TPassable) -> TPassable>,
    passable: TPassable,
)
    ensures
        run_steps(
            transforms.map_values(
                |transform: spec_fn(TPassable) -> TPassable| map_step::<TPassable, TError>(transform),
            ),
            passable,
        ) == Ok::<TPassable, TError>(apply_all(transforms, passable)),
    decreases transforms.len(),
{
    let steps = transforms.map_values(
                |transform: spec_fn(TPassable) -> TPassable| map_step::<TPassable, TError>(transform),
            );
    if transforms.len() > 0 {
        let tail = transforms.drop_first();
        let tail_steps = tail.map_values(
            |transform: spec_fn(TPassable) -> TPassable| map_step::<TPassable, TError>(transform),
        );
        assert(steps.drop_first() =~= tail_steps);
        assert(steps[0] == map_step::<TPassable, TError>(transforms[0]));
        lemma_transforms_compose_in_order::<TPassable, TError>(tail, (transforms[0])(passable));
    }
}

/// The behaviour of a step that hands its value on unchanged and applies
/// `wrap` to a successful result of the steps after it.
pub open spec fn wrap_step<TPassable, TError>(
    wrap: spec_fn(TPassable) -> TPassable,
) -> StepBehavior<TPassable, TError> {
    |passable: TPassable, rest: spec_fn(TPassable) -> PipelineResult<TPassable, TError>|
        match rest(passable) {
            Ok(value) => Ok(wrap(value)),
            Err(error) => Err(error),
        }
}

/// A step may wrap the downstream result: it sees what the steps after it
/// produced and changes a successful value, while an error passes through.
pub proof fn lemma_wrap_downstream_result<TPassable, TError>(
    wrap: spec_fn(TPassable) -> TPassable,
    after: Seq<StepBehavior<TPassable, TError>>,
    passable: TPassable,
)
    ensures
        run_steps(seq![wrap_step::<TPassable, TError>(wrap)] + after, passable) == match run_steps(
            after,
            passable,
        ) {
            Ok(value) => Ok::<TPassable, TError>(wrap(value)),
            Err(error) => Err(error),
        },
{
    let steps = seq![wrap_step::<TPassable, TError>(wrap)] + after;
    assert(steps[0] == wrap_step::<TPassable, TError>(wrap));
    assert(steps.drop_first() =~= after);
}

/// Transform pipelines compose: running `first` followed by `second` is
/// running `first`, and on success running `second` on its value; a
/// failure in `first` is the result and `second` never runs.
pub proof fn lemma_transform_concatenation<T, E>(
    first: Seq<TransformBehavior<T, E>>,
    second: Seq<TransformBehavior<T, E>>,
    passable: T,
)
    ensures
        run_transforms(first + second, passable) == match run_transforms(first, passable) {
            Ok(value) => run_transforms(second, value),
            Err(error) => Err(error),
        },
    decreases first.len(),
{
    if first.len() == 0 {
        assert(first + second =~= second);
    } else {
        assert((first + second).drop_first() =~= first.drop_first() + second);
        assert((first + second)[0] == first[0]);
        if let Ok(value) = (first[0])(passable) {
            lemma_transform_concatenation(first.drop_first(), second, value);
        }
    }
}

/// The behaviour of a transform step that always succeeds with
/// `transform` of its value.
pub open spec fn ok_step<T, E>(transform: spec_fn(T) -> T) -> TransformBehavior<T, E> {
    |passable: T| Ok::<T, E>(transform(passable))
}

/// A transform pipeline of always-successful steps returns the composition
/// of their transforms, first step first.
pub proof fn lemma_ok_transforms_compose_in_order<T, E>(
    transforms: Seq<spec_fn(T) -> T>,
    passable: T,
)
    ensures
        run_transforms(
            transforms.map_values(|transform: spec_fn(T) -> T| ok_step::<T, E>(transform)),
            passable,
        ) == Ok::<T, E>(apply_all(transforms, passable)),
    decreases transforms.len(),
{
    let steps = transforms.map_values(|transform: spec_fn(T) -> T| ok_step::<T, E>(transform));
    if transforms.len() > 0 {
        let tail = transforms.drop_first();
        let tail_steps = tail.map_values(|transform: spec_fn(T) -> T| ok_step::<T, E>(transform));
        assert(steps.drop_first() =~= tail_steps);
        assert(steps[0] == ok_step::<T, E>(transforms[0]));
        lemma_ok_transforms_compose_in_order::<T, E>(tail, (transforms[0])(passable));
    }
}

/// Both kinds of pipeline agree on steps that only map the value: handing
/// the mapped value on in a continuation pipeline gives what the transform
/// pipeline gives for the same maps.
pub proof fn lemma_pipeline_kinds_agree_on_maps<T, E>(
    transforms: Seq<spec_fn(T) -> T>,
    passable: T,
)
    ensures
        run_steps(
            transforms.map_values(|transform: spec_fn(T) -> T| map_step::<T, E>(transform)),
            passable,
        ) == run_transforms(
            transforms.map_values(|transform: spec_fn(T) -> T| ok_step::<T, E>(transform)),
            passable,
        ),
{
    lemma_transforms_compose_in_order::<T, E>(transforms, passable);
    lemma_ok_transforms_compose_in_order::<T, E>(transforms, passable);
}

/// Steps that fail with the pipeline's own error type reach the caller
/// with that error unchanged.
pub proof fn lemma_own_errors_pass_unchanged(error: PipelineError, converted: PipelineError)
    requires
        converts_to(error, converted),
    ensures
        converted == error,
{
}

/// Taps see one value per successful step: a run that succeeds shows them
/// a value after every step, the last of which is the result; a run that
/// fails shows them a value only for the steps before the failing one.
pub proof fn lemma_taps_see_one_value_per_step<T, E>(
    steps: Seq<TransformBehavior<T, E>>,
    passable: T,
)
    ensures
        run_transforms(steps, passable) matches Ok(value) ==> produced(steps, passable).len()
            == steps.len() && (steps.len() > 0 ==> produced(steps, passable).last() == value),
        run_transforms(steps, passable) is Err ==> produced(steps, passable).len() < steps.len(),
    decreases steps.len(),
{
    if steps.len() > 0 {
        match (steps[0])(passable) {
            Ok(next) => {
                lemma_taps_see_one_value_per_step(steps.drop_first(), next);
                let rest = produced(steps.drop_first(), next);
                assert(produced(steps, passable) == seq![next] + rest);
                if rest.len() > 0 {
                    assert((seq![next] + rest).last() == rest.last());
                }
            },
            Err(_) => {},
        }
    }
}

/// A continuation hands the value to the first remaining step, with the
/// steps after it as that step's continuation; with no step left, the
/// value itself is the result.
pub proof fn lemma_continuation_unfolds<TPassable, TError>(
    steps: Seq<StepBehavior<TPassable, TError>>,
    passable: TPassable,
)
    ensures
        steps.len() == 0 ==> (rest_of(steps))(passable) == Ok::<TPassable, TError>(passable),
        steps.len() > 0 ==> (rest_of(steps))(passable) == (steps[0])(
            passable,
            rest_of(steps.drop_first()),
        ),
{
}

/// A step added last runs on the value the earlier steps produce, and only
/// when they succeed; an earlier failure is the result. A run of the
/// earlier steps that is fixed by their descriptions stays fixed when the
/// added step describes itself or is never reached.
pub proof fn lemma_added_step_runs_last<T, E>(
    steps: Seq<TransformBehavior<T, E>>,
    obeying: Seq<bool>,
    step: TransformBehavior<T, E>,
    obeys: bool,
    passable: T,
)
    requires
        obeying.len() == steps.len(),
    ensures
        run_transforms(steps.push(step), passable) == match run_transforms(steps, passable) {
            Ok(value) => step(value),
            Err(error) => Err(error),
        },
        described_run(steps.push(step), obeying.push(obeys), passable) == (described_run(
            steps,
            obeying,
            passable,
        ) && (run_transforms(steps, passable) is Ok ==> obeys)),
    decreases steps.len(),
{
    lemma_transform_concatenation(steps, seq![step], passable);
    assert(steps.push(step) =~= steps + seq![step]);
    if let Ok(value) = run_transforms(steps, passable) {
        let single = seq![step];
        assert(single.drop_first() =~= Seq::<TransformBehavior<T, E>>::empty());
        assert(single[0] == step);
        if let Ok(next) = step(value) {
            assert(run_transforms(single.drop_first(), next) == Ok::<T, E>(next));
        }
    }
    if steps.len() > 0 {
        assert(steps.push(step).drop_first() =~= steps.drop_first().push(step));
        assert(obeying.push(obeys).drop_first() =~= obeying.drop_first().push(obeys));
        assert(steps.push(step)[0] == steps[0]);
        assert(obeying.push(obeys)[0] == obeying[0]);
        if let Ok(value) = (steps[0])(passable) {
            lemma_added_step_runs_last(steps.drop_first(), obeying.drop_first(), step, obeys, value);
        }
    } else {
        assert(steps.push(step).drop_first() =~= Seq::<TransformBehavior<T, E>>::empty());
        assert(obeying.push(obeys).drop_first() =~= Seq::<bool>::empty());
        match step(passable) {
            Ok(value) => {
                assert(described_run(
                    Seq::<TransformBehavior<T, E>>::empty(),
                    Seq::<bool>::empty(),
                    value,
                ));
            },
            Err(_) => {},
        }
    }
}

} // verus!
