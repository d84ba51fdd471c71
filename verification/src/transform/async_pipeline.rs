use vstd::prelude::*;

verus! {

/// Where an asynchronous transform run stands: the next step to run and
/// the value it receives, or the run's result.
pub enum AsyncProgress<T, E> {
    /// Run the step at this position on this value.
    Next(usize, T),
    /// The run is over with this result.
    Finished(Result<T, E>),
}

/// The ordered steps of an asynchronous transform pipeline.
///
/// The steps are of the type `TStep` that the asynchronous runtime uses for
/// them; running them is left to that runtime.
pub struct AsyncPipeline<TStep> {
    steps: Vec<TStep>,
}

impl<TStep> AsyncPipeline<TStep> {
    /// The steps, in execution order.
    pub closed spec fn steps(self) -> Seq<TStep> {
        self.steps@
    }

    /// Creates a pipeline without steps.
    pub fn new() -> (pipeline: Self)
        ensures
            pipeline.steps() == Seq::<TStep>::empty(),
    {
        AsyncPipeline { steps: Vec::new() }
    }

    /// Adds `step` after the existing steps.
    pub fn add(self, step: TStep) -> (pipeline: Self)
        ensures
            pipeline.steps() == self.steps().push(step),
    {
        let AsyncPipeline { mut steps } = self;
        steps.push(step);
        AsyncPipeline { steps }
    }

    /// Where a run on `passable` starts: at the first step, or finished with
    /// the value itself when there is no step.
    pub fn begin<T, E>(&self, passable: T) -> (progress: AsyncProgress<T, E>)
        ensures
            if self.steps().len() == 0 {
                progress == AsyncProgress::<T, E>::Finished(Ok(passable))
            } else {
                progress == AsyncProgress::<T, E>::Next(0, passable)
            },
    {
        if self.steps.len() == 0 {
            AsyncProgress::Finished(Ok(passable))
        } else {
            AsyncProgress::Next(0, passable)
        }
    }

    /// Where a run goes after the step at `index` returned `outcome`: a
    /// value goes on to the following step, or is the result after the last
    /// one; the first error ends the run and is its result.
    pub fn advance<T, E>(&self, index: usize, outcome: Result<T, E>) -> (progress: AsyncProgress<
        T,
        E,
    >)
        requires
            index < self.steps().len(),
        ensures
            match outcome {
                Ok(value) => if index + 1 < self.steps().len() {
                    progress == AsyncProgress::<T, E>::Next((index + 1) as usize, value)
                } else {
                    progress == AsyncProgress::<T, E>::Finished(Ok(value))
                },
                Err(error) => progress == AsyncProgress::<T, E>::Finished(Err(error)),
            },
    {
        match outcome {
            Ok(value) => if index < self.steps.len() - 1 {
                AsyncProgress::Next(index + 1, value)
            } else {
                AsyncProgress::Finished(Ok(value))
            },
            Err(error) => AsyncProgress::Finished(Err(error)),
        }
    }

    /// The steps to run, in order.
    pub fn pipes(&self) -> (steps: &Vec<TStep>)
        ensures
            steps@ == self.steps(),
    {
        &self.steps
    }
}

} // verus!
