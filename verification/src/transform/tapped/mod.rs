mod taps;

use vstd::prelude::*;

use crate::observer::all_shown;
use crate::transform::error::{PipelineError, PipelineResult};
use crate::transform::pipe::{produced, run_transforms};
use crate::transform::pipeline::Pipeline;
use crate::transform::utility::{failure_of, require_passable};
use self::taps::run_tapped;

pub use self::taps::Taps;

verus! {

// The taps are run here alone: `run_tapped`, the one function that shows
// them values, is visible only in this module.
impl<T, E: std::fmt::Debug> Pipeline<T, E> where PipelineError: From<E> {
    /// Runs the steps on the sent value, showing each produced value to the
    /// taps, and returns the final value.
    pub fn then_return(self) -> (result: PipelineResult<T>)
        ensures
            match self.passable() {
                None => result matches Err(PipelineError::InputMissing),
                Some(passable) => self.described_on(passable) ==> match run_transforms(
                    self.steps(),
                    passable,
                ) {
                    Ok(value) => result == Ok::<T, PipelineError>(value),
                    Err(_) => result matches Err(PipelineError::StepFailure(_)),
                },
            },
            self.passable() is Some ==> (result is Err ==> result matches Err(
                PipelineError::StepFailure(_),
            )),
            self.passable() matches Some(passable) ==> (self.described_on(passable) ==> all_shown(
                self.taps(),
                produced(self.steps(), passable),
            )),
    {
        let (passable, pipes, taps) = self.into_parts();
        let passable = match require_passable(passable) {
            Ok(passable) => passable,
            Err(error) => return Err(error),
        };
        let (outcome, _shown) = run_tapped(&pipes, &taps, passable);
        match outcome {
            Ok(value) => Ok(value),
            Err(err) => Err(failure_of(&err)),
        }
    }
}

} // verus!
