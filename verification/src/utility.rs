use vstd::prelude::*;
use std::fmt::Write;

use crate::errors::PipelineError;

verus! {

/// Appends the debug formatting of `value` to `text`.
///
/// Calls `write!(text, "{:?}", value)`, which runs `value`'s own `Debug`
/// impl and writes through `String`'s `fmt::Write`, which only appends; an
/// error reported by the `Debug` impl is dropped rather than propagated.
/// The contract claims only that the earlier text is kept as a prefix; what
/// is appended is the impl's own output and is not stated.
#[verifier::external_body]
pub(crate) fn append_debug<E: std::fmt::Debug>(text: &mut String, value: &E)
    ensures
        final(text)@.len() >= old(text)@.len(),
        final(text)@.subrange(0, old(text)@.len() as int) == old(text)@,
{
    let _ = write!(text, "{:?}", value);
}

/// Requires a pipeline input value before execution starts.
///
/// Returns the value when it exists, and `PipelineError::InputMissing`
/// when the pipeline was executed without one.
pub fn require_passable<T>(passable: Option<T>) -> (result: Result<T, PipelineError>)
    ensures
        match passable {
            Some(value) => result == Ok::<T, PipelineError>(value),
            None => result matches Err(PipelineError::InputMissing),
        },
{
    match passable {
        Some(value) => Ok(value),
        None => Err(PipelineError::InputMissing),
    }
}

/// The list holding the value of `item`, if it has one.
pub(crate) fn listed<X>(item: Option<X>) -> (list: Vec<X>)
    ensures
        list@ == match item {
            Some(value) => seq![value],
            None => Seq::<X>::empty(),
        },
{
    let mut list = Vec::new();
    if let Some(value) = item {
        list.push(value);
    }
    list
}

} // verus!
