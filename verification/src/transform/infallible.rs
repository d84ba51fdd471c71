use vstd::prelude::*;

verus! {

/// A step that always maps the value to a new one.
///
/// An implementation may describe what it does: `spec_handle` gives the
/// step's result for a value, and `obeys_handle_spec` says that `handle`
/// keeps to it. Implementations that do not describe themselves claim
/// nothing.
pub trait Pipe<T> {
    /// Whether `handle` returns what `spec_handle` describes.
    open spec fn obeys_handle_spec(&self) -> bool {
        false
    }

    /// The result of this step for `input`.
    open spec fn spec_handle(&self, input: T) -> T {
        arbitrary()
    }

    /// Maps the value.
    fn handle(&self, input: T) -> (output: T)
        ensures
            self.obeys_handle_spec() ==> output == self.spec_handle(input),
    ;
}

} // verus!
