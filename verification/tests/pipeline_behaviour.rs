use std::sync::atomic::{AtomicUsize, Ordering};
use std::sync::Arc;

use pipx::{
    pipeline, Next, Pipe, Pipeline, PipelineError, PipelineResult, PipelineStep, StepFailure,
};

struct Trim;

impl Pipe<String> for Trim {
    fn handle(&self, passable: String, next: Next<'_, String>) -> PipelineResult<String> {
        next.handle(passable.trim().to_string())
    }
}

struct Uppercase;

impl Pipe<String> for Uppercase {
    fn handle(&self, passable: String, next: Next<'_, String>) -> PipelineResult<String> {
        next.handle(passable.to_uppercase())
    }
}

struct Prefix(&'static str);

impl Pipe<String> for Prefix {
    fn handle(&self, passable: String, next: Next<'_, String>) -> PipelineResult<String> {
        next.handle(format!("{}{}", self.0, passable))
    }
}

struct Stop;

impl Pipe<String> for Stop {
    fn handle(&self, passable: String, _next: Next<'_, String>) -> PipelineResult<String> {
        Ok(format!("{passable}:stopped"))
    }
}

struct NeverRuns;

impl Pipe<String> for NeverRuns {
    fn handle(&self, passable: String, next: Next<'_, String>) -> PipelineResult<String> {
        next.handle(format!("never:{passable}"))
    }
}

struct Wrap;

impl Pipe<String> for Wrap {
    fn handle(&self, passable: String, next: Next<'_, String>) -> PipelineResult<String> {
        let result = next.handle(passable)?;
        Ok(format!("[{result}]"))
    }
}

struct Fail;

impl Pipe<String> for Fail {
    fn handle(&self, _passable: String, _next: Next<'_, String>) -> PipelineResult<String> {
        Err(PipelineError::Message("pipeline failed".to_string()))
    }
}

struct PassThrough;

impl Pipe<String> for PassThrough {
    fn handle(&self, passable: String, next: Next<'_, String>) -> PipelineResult<String> {
        next.handle(passable)
    }
}

#[derive(Debug)]
struct CustomError(&'static str);

impl From<CustomError> for PipelineError {
    fn from(error: CustomError) -> Self {
        PipelineError::StepFailure(StepFailure { step: "custom", message: error.0.to_string() })
    }
}

struct FailCustom;

impl Pipe<u32, CustomError> for FailCustom {
    fn handle(&self, _passable: u32, _next: Next<'_, u32, CustomError>) -> PipelineResult<u32, CustomError> {
        Err(CustomError("custom failure"))
    }
}

struct Double;

impl Pipe<u32, CustomError> for Double {
    fn handle(&self, passable: u32, next: Next<'_, u32, CustomError>) -> PipelineResult<u32, CustomError> {
        next.handle(passable * 2)
    }
}

#[test]
fn pipeline_helper_runs_single_step() {
    let output = pipeline("  hello  ".to_string()).pipe(Trim).then_return().unwrap();
    assert_eq!(output, "hello");
}

#[test]
fn empty_pipeline_returns_input_unchanged() {
    let output = pipeline("unchanged".to_string()).then_return().unwrap();
    assert_eq!(output, "unchanged");
}

#[test]
fn then_maps_final_value() {
    let length = pipeline("hello".to_string()).pipe(Uppercase).then(|value| value.len()).unwrap();
    assert_eq!(length, 5);
}

#[test]
fn through_sets_steps_in_order() {
    let steps: Vec<PipelineStep<String>> =
        vec![Arc::new(Trim), Arc::new(Uppercase), Arc::new(Prefix("USER:"))];
    let output = pipeline("  admin  ".to_string()).through(steps).then_return().unwrap();
    assert_eq!(output, "USER:ADMIN");
}

#[test]
fn through_replaces_previous_steps() {
    let output = pipeline("  hello  ".to_string())
        .pipe(Prefix("dropped:"))
        .through(vec![Arc::new(Trim)])
        .then_return()
        .unwrap();
    assert_eq!(output, "hello");
}

#[test]
fn steps_run_in_the_order_they_were_added() {
    let output = pipeline("core".to_string())
        .pipe(Prefix("a:"))
        .pipe(Prefix("b:"))
        .then_return()
        .unwrap();
    assert_eq!(output, "b:a:core");
}

#[test]
fn when_appends_only_if_true() {
    let added = pipeline("hello".to_string()).when(true, Uppercase).then_return().unwrap();
    let skipped = pipeline("hello".to_string()).when(false, Uppercase).then_return().unwrap();
    assert_eq!(added, "HELLO");
    assert_eq!(skipped, "hello");
}

#[test]
fn unless_appends_only_if_false() {
    let added = pipeline("hello".to_string()).unless(false, Uppercase).then_return().unwrap();
    let skipped = pipeline("hello".to_string()).unless(true, Uppercase).then_return().unwrap();
    assert_eq!(added, "HELLO");
    assert_eq!(skipped, "hello");
}

#[test]
fn conditional_runtime_composition() {
    let output = pipeline("  request  ".to_string())
        .unless(false, Trim)
        .when(true, Prefix("debug:"))
        .then_return()
        .unwrap();
    assert_eq!(output, "debug:request");
}

#[test]
fn short_circuit_skips_remaining_steps() {
    let output = pipeline("hello".to_string()).pipe(Stop).pipe(NeverRuns).then_return().unwrap();
    assert_eq!(output, "hello:stopped");
}

#[test]
fn wrap_sees_downstream_result() {
    let output = pipeline("hello".to_string()).pipe(Wrap).pipe(Uppercase).then_return().unwrap();
    assert_eq!(output, "[HELLO]");
}

#[test]
fn pass_through_step_changes_nothing() {
    let with = pipeline("x".to_string())
        .pipe(Prefix("a:"))
        .pipe(PassThrough)
        .pipe(Prefix("b:"))
        .then_return()
        .unwrap();
    let without = pipeline("x".to_string()).pipe(Prefix("a:")).pipe(Prefix("b:")).then_return().unwrap();
    assert_eq!(with, without);
}

#[test]
fn failing_step_stops_pipeline() {
    let result = pipeline("hello".to_string()).pipe(Fail).pipe(NeverRuns).then_return();
    assert!(matches!(result, Err(PipelineError::Message(ref text)) if text == "pipeline failed"));
}

#[test]
fn missing_input_is_reported() {
    let result = Pipeline::<String>::new().pipe(Uppercase).then_return();
    assert!(matches!(result, Err(PipelineError::InputMissing)));
}

#[test]
fn rescue_recovers_step_errors() {
    let output = pipeline("hello".to_string()).pipe(Fail).rescue(|_| "fallback".to_string()).unwrap();
    assert_eq!(output, "fallback");
}

#[test]
fn rescue_receives_the_error() {
    let output = pipeline("hello".to_string())
        .pipe(Fail)
        .rescue(|error| match error {
            PipelineError::Message(text) => format!("recovered from: {text}"),
            _ => "other".to_string(),
        })
        .unwrap();
    assert_eq!(output, "recovered from: pipeline failed");
}

#[test]
fn rescue_keeps_successful_value() {
    let output = pipeline("hello".to_string()).pipe(Uppercase).rescue(|_| "fallback".to_string()).unwrap();
    assert_eq!(output, "HELLO");
}

#[test]
fn rescue_does_not_recover_missing_input() {
    let result = Pipeline::<String>::new().pipe(Fail).rescue(|_| "fallback".to_string());
    assert!(matches!(result, Err(PipelineError::InputMissing)));
}

#[test]
fn finally_observes_success_and_failure() {
    let calls = Arc::new(AtomicUsize::new(0));
    let seen = calls.clone();
    let output = pipeline("hello".to_string())
        .pipe(Uppercase)
        .finally(move |result| {
            assert!(matches!(result, Ok(ref value) if value == "HELLO"));
            seen.fetch_add(1, Ordering::SeqCst);
        })
        .then_return()
        .unwrap();
    assert_eq!(output, "HELLO");
    assert_eq!(calls.load(Ordering::SeqCst), 1);

    let failures = Arc::new(AtomicUsize::new(0));
    let seen_failure = failures.clone();
    let result = pipeline("hello".to_string())
        .pipe(Fail)
        .finally(move |result| {
            assert!(result.is_err());
            seen_failure.fetch_add(1, Ordering::SeqCst);
        })
        .then_return();
    assert!(result.is_err());
    assert_eq!(failures.load(Ordering::SeqCst), 1);
}

#[test]
fn custom_step_errors_are_converted() {
    let result = Pipeline::new().send(3u32).pipe(Double).pipe(FailCustom).then_return();
    match result {
        Err(PipelineError::StepFailure(failure)) => {
            assert_eq!(failure.step, "custom");
            assert_eq!(failure.message, "custom failure");
        },
        other => panic!("unexpected result: {other:?}"),
    }
    let doubled = Pipeline::new().send(3u32).pipe(Double).pipe(Double).then_return().unwrap();
    assert_eq!(doubled, 12);
}

#[test]
fn default_pipeline_is_empty() {
    let output = Pipeline::<u32, CustomError>::default().send(7).then_return().unwrap();
    assert_eq!(output, 7);
}

#[test]
fn validation_pipeline_accepts_and_rejects() {
    struct ValidatePassword;
    impl Pipe<String> for ValidatePassword {
        fn handle(&self, passable: String, next: Next<'_, String>) -> PipelineResult<String> {
            if passable.len() < 8 {
                return Err(PipelineError::Message("password is too short".to_string()));
            }
            next.handle(passable)
        }
    }
    let accepted = pipeline("secret-password".to_string()).pipe(ValidatePassword).then_return();
    assert_eq!(accepted.unwrap(), "secret-password");
    let rejected = pipeline("short".to_string()).pipe(ValidatePassword).then_return();
    assert!(matches!(rejected, Err(PipelineError::Message(ref text)) if text == "password is too short"));
}

struct ReportsMissing;

impl Pipe<String> for ReportsMissing {
    fn handle(&self, _passable: String, _next: Next<'_, String>) -> PipelineResult<String> {
        Err(PipelineError::InputMissing)
    }
}

#[test]
fn rescue_returns_input_missing_from_a_step_unchanged() {
    let result = pipeline("hello".to_string()).pipe(ReportsMissing).rescue(|_| "fallback".to_string());
    assert!(matches!(result, Err(PipelineError::InputMissing)));
}

#[test]
fn map_outcome_maps_values_and_keeps_errors() {
    let mapped = pipx::pipeline::pipeline::map_outcome(Ok::<u32, PipelineError>(4), |value| value * 10);
    assert!(matches!(mapped, Ok(40)));
    let kept = pipx::pipeline::pipeline::map_outcome(Err::<u32, PipelineError>(PipelineError::Message("bad".to_string())), |value| value * 10);
    assert!(matches!(kept, Err(PipelineError::Message(ref text)) if text == "bad"));
}

#[test]
fn recover_outcome_recovers_all_but_missing_input() {
    let kept = pipx::pipeline::pipeline::recover_outcome(Ok::<u32, PipelineError>(4), |_| 0);
    assert!(matches!(kept, Ok(4)));
    let recovered = pipx::pipeline::pipeline::recover_outcome(
        Err::<u32, PipelineError>(PipelineError::Message("bad".to_string())),
        |error| match error {
            PipelineError::Message(text) => text.len() as u32,
            _ => 0,
        },
    );
    assert!(matches!(recovered, Ok(3)));
    let missing = pipx::pipeline::pipeline::recover_outcome(Err::<u32, PipelineError>(PipelineError::InputMissing), |_| 7);
    assert!(matches!(missing, Err(PipelineError::InputMissing)));
}

#[test]
fn finally_is_kept_by_later_builders_and_replaced_by_a_later_finally() {
    let first = Arc::new(AtomicUsize::new(0));
    let second = Arc::new(AtomicUsize::new(0));
    let first_seen = first.clone();
    let second_seen = second.clone();
    let output = Pipeline::new()
        .finally(move |_result: &PipelineResult<String>| {
            first_seen.fetch_add(1, Ordering::SeqCst);
        })
        .send("a".to_string())
        .pipe(Uppercase)
        .when(true, Prefix(">"))
        .unless(false, Prefix("<"))
        .then_return()
        .unwrap();
    assert_eq!(output, "<>A");
    assert_eq!(first.load(Ordering::SeqCst), 1);

    let first_again = first.clone();
    let output = pipeline("b".to_string())
        .finally(move |_result: &PipelineResult<String>| {
            first_again.fetch_add(1, Ordering::SeqCst);
        })
        .finally(move |_result: &PipelineResult<String>| {
            second_seen.fetch_add(1, Ordering::SeqCst);
        })
        .then_return()
        .unwrap();
    assert_eq!(output, "b");
    assert_eq!(first.load(Ordering::SeqCst), 1);
    assert_eq!(second.load(Ordering::SeqCst), 1);
}

#[test]
fn finally_sees_the_error_before_rescue_recovers_it() {
    let errors = Arc::new(AtomicUsize::new(0));
    let seen = errors.clone();
    let output = pipeline("x".to_string())
        .pipe(Fail)
        .finally(move |result: &PipelineResult<String>| {
            if result.is_err() {
                seen.fetch_add(1, Ordering::SeqCst);
            }
        })
        .rescue(|_| "recovered".to_string())
        .unwrap();
    assert_eq!(output, "recovered");
    assert_eq!(errors.load(Ordering::SeqCst), 1);
}

#[test]
fn finally_does_not_run_without_input() {
    let calls = Arc::new(AtomicUsize::new(0));
    let seen = calls.clone();
    let result = Pipeline::<String>::new()
        .pipe(Uppercase)
        .finally(move |_result: &PipelineResult<String>| {
            seen.fetch_add(1, Ordering::SeqCst);
        })
        .then_return();
    assert!(matches!(result, Err(PipelineError::InputMissing)));
    assert_eq!(calls.load(Ordering::SeqCst), 0);
}

#[test]
fn configured_pipeline_can_move_between_threads() {
    let configured = pipeline("t".to_string())
        .pipe(Uppercase)
        .finally(|_result: &PipelineResult<String>| {});
    require_send(&configured);
    assert_eq!(configured.then_return().unwrap(), "T");
}

fn require_send<T: Send + 'static>(_value: &T) {}
