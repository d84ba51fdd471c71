# pipx

A small pipeline library with machine-checked contracts.

A pipeline holds an input value and an ordered list of steps. Two kinds of
step are offered:

* `Pipe` steps receive the value and a `Next` continuation. A step may hand
  a value on, stop early, wrap what the rest of the chain returns, or fail.
  `Pipeline` runs them; `when`, `unless`, `through`, `finally`, `then`,
  `then_return` and `rescue` build and run it.
* `TransformPipe` steps map the value or fail, one after another.
  `TransformPipeline`, `transform::Pipeline` (with taps) and
  `transform::sequential::Pipeline` run them.

## Layout

* `src/` carries machine-checked proofs. A step may describe its own
  behaviour (`spec_handle`, `obeys_handle_spec`); when the steps that a run
  reaches do, the contracts state the exact result of the run. Steps after
  a failure or after a step that stops the chain need not describe
  themselves. `src/laws.rs` proves the laws that hold of every pipeline:
  composition, order, short-circuiting, wrapping and neutral steps.
  Final callbacks and taps are observers: their contracts say which values
  they have been shown.
* `app/` holds what runs outside the checked library: the asynchronous runtime
  (`AsyncPipe`, `AsyncNext`, awaiting the steps of an `AsyncPipeline`),
  the `steps!` and `async_steps!` macros, and `step_failure_from`. What to
  run next, when a run ends and how its errors are converted are decided by
  verified functions (`async_step`, `async_finish`, and `begin` / `advance`
  on `transform::AsyncPipeline`).
* `tests/` exercises the library through its public interface.
