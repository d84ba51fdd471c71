pub mod errors;
pub mod laws;
pub mod observer;
pub mod pipe;
pub mod pipeline;
pub mod transform;
pub mod types;
mod utility;

pub use crate::errors::{PipelineError, StepFailure};
pub use crate::observer::{Observer, ObserverFn, SharedObserver};
pub use crate::pipe::{Next, Pipe};
pub use crate::types::{FinallyCallback, PipelineResult, PipelineStep};
pub use crate::pipeline::{
    async_finish, async_pipeline, async_step, AsyncPipeline, AsyncStep, Pipeline, TransformPipeline,
};
pub use crate::transform::Pipe as TransformPipe;
pub use crate::utility::require_passable;

use vstd::prelude::*;

verus! {

/// Creates a pipeline with an initial value.
pub fn pipeline<TPassable>(passable: TPassable) -> (created: Pipeline<TPassable>)
    ensures
        created.passable() == Some(passable),
        created.steps() == Seq::<
            crate::pipe::behavior::StepBehavior<TPassable, PipelineError>,
        >::empty(),
        created.obeying() == Seq::<bool>::empty(),
        created.specified(),
        created.callback() is None,
{
    Pipeline::new().send(passable)
}

} // verus!
