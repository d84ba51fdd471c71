use std::cell::RefCell;
use std::rc::Rc;

use pipx::transform::sequential;
use pipx::transform::{self, run_taps, Pipe};
use pipx::{require_passable, AsyncPipeline, PipelineError, TransformPipeline};

struct Trim;

impl Pipe<String, String> for Trim {
    fn handle(&self, input: String) -> Result<String, String> {
        Ok(input.trim().to_string())
    }
}

struct Upper;

impl Pipe<String, String> for Upper {
    fn handle(&self, input: String) -> Result<String, String> {
        Ok(input.to_uppercase())
    }
}

struct Reject;

impl Pipe<String, String> for Reject {
    fn handle(&self, _input: String) -> Result<String, String> {
        Err("rejected".to_string())
    }
}

#[derive(Debug)]
struct StepError(&'static str);

impl From<StepError> for transform::PipelineError {
    fn from(error: StepError) -> Self {
        transform::PipelineError::DispatchError(error.0.to_string())
    }
}

struct TrimStep;

impl Pipe<String, StepError> for TrimStep {
    fn handle(&self, input: String) -> Result<String, StepError> {
        Ok(input.trim().to_string())
    }
}

struct UpperStep;

impl Pipe<String, StepError> for UpperStep {
    fn handle(&self, input: String) -> Result<String, StepError> {
        Ok(input.to_uppercase())
    }
}

struct RejectStep;

impl Pipe<String, StepError> for RejectStep {
    fn handle(&self, _input: String) -> Result<String, StepError> {
        Err(StepError("rejected"))
    }
}

struct AddOne;

impl Pipe<u64, PipelineError> for AddOne {
    fn handle(&self, input: u64) -> Result<u64, PipelineError> {
        Ok(input + 1)
    }
}

struct Refuse;

impl Pipe<u64, PipelineError> for Refuse {
    fn handle(&self, _input: u64) -> Result<u64, PipelineError> {
        Err(PipelineError::Message("refused".to_string()))
    }
}

#[test]
fn sequential_pipeline_executes_steps_in_order() {
    let steps = sequential::Pipeline::new().add(Trim).add(Upper);
    assert_eq!(steps.execute("   hello rustpipe   ".to_string()).unwrap(), "HELLO RUSTPIPE");
}

#[test]
fn sequential_pipeline_stops_at_first_failure() {
    let steps = sequential::Pipeline::new().add(Reject).add(Upper);
    assert_eq!(steps.execute("x".to_string()), Err("rejected".to_string()));
}

#[test]
fn sequential_pipeline_without_steps_returns_input() {
    let steps = sequential::Pipeline::<String, String>::new();
    assert_eq!(steps.execute("same".to_string()).unwrap(), "same");
}

#[test]
fn transform_then_return_runs_taps_after_each_step() {
    let seen = Rc::new(RefCell::new(Vec::new()));
    let log = seen.clone();
    let output = transform::Pipeline::new()
        .send("  hi  ".to_string())
        .through(vec![Box::new(TrimStep), Box::new(UpperStep)])
        .tap(move |value: &String| log.borrow_mut().push(value.clone()))
        .then_return()
        .unwrap();
    assert_eq!(output, "HI");
    assert_eq!(*seen.borrow(), vec!["hi".to_string(), "HI".to_string()]);
}

#[test]
fn transform_failure_becomes_step_failure() {
    let result = transform::Pipeline::new()
        .send("x".to_string())
        .when(true, Box::new(RejectStep))
        .then_return();
    match result {
        Err(transform::PipelineError::StepFailure(message)) => assert_eq!(message, "StepError(\"rejected\")"),
        other => panic!("unexpected result: {other:?}"),
    }
}

#[test]
fn transform_missing_input_is_reported() {
    let result = transform::Pipeline::<String, StepError>::new().then_return();
    assert!(matches!(result, Err(transform::PipelineError::InputMissing)));
}

#[test]
fn transform_through_appends_steps() {
    let output = transform::Pipeline::new()
        .send(" a ".to_string())
        .through(vec![Box::new(TrimStep)])
        .through(vec![Box::new(UpperStep)])
        .then_return()
        .unwrap();
    assert_eq!(output, "A");
}

#[test]
fn transform_when_and_unless_follow_condition() {
    let output = transform::Pipeline::new()
        .send("a".to_string())
        .when(false, Box::new(RejectStep))
        .unless(true, Box::new(RejectStep))
        .unless(false, Box::new(UpperStep))
        .then_return()
        .unwrap();
    assert_eq!(output, "A");
}

#[test]
fn transform_then_maps_value() {
    let length = transform::Pipeline::new()
        .send(" abc ".to_string())
        .through(vec![Box::new(TrimStep)])
        .then(|value| value.len())
        .unwrap();
    assert_eq!(length, 3);
}

#[test]
fn transform_rescue_recovers_failure() {
    let output = transform::Pipeline::new()
        .send("x".to_string())
        .through(vec![Box::new(UpperStep), Box::new(RejectStep)])
        .rescue(|error| match error {
            transform::PipelineError::StepFailure(message) => format!("recovered {message}"),
            _ => "other".to_string(),
        })
        .unwrap();
    assert_eq!(output, "recovered StepError(\"rejected\")");
    let kept = transform::Pipeline::new()
        .send("x".to_string())
        .through(vec![Box::new(UpperStep)])
        .rescue(|_| "fallback".to_string())
        .unwrap();
    assert_eq!(kept, "X");
    let missing = transform::Pipeline::<String, StepError>::new().rescue(|_| "fallback".to_string());
    assert!(matches!(missing, Err(transform::PipelineError::InputMissing)));
}

#[test]
fn step_failure_converts_to_transform_error() {
    let failure = pipx::StepFailure { step: "Validate", message: "bad input".to_string() };
    let error: transform::PipelineError = failure.into();
    assert!(matches!(error, transform::PipelineError::StepFailure(ref message) if message == "bad input"));
}

#[test]
fn require_passable_reports_missing_input() {
    assert_eq!(require_passable(Some(4)).unwrap(), 4);
    assert!(matches!(require_passable::<u8>(None), Err(PipelineError::InputMissing)));
    assert_eq!(transform::require_passable(Some("v")).unwrap(), "v");
    assert!(matches!(transform::require_passable::<u8>(None), Err(transform::PipelineError::InputMissing)));
}

#[test]
fn run_taps_calls_every_tap() {
    let count = Rc::new(RefCell::new(0));
        let first = count.clone();
    let second = count.clone();
    let taps: Vec<Box<dyn pipx::Observer<u8>>> = vec![
        Box::new(Counter(first)),
        Box::new(Counter(second)),
    ];
    run_taps(&taps, &1);
    assert_eq!(*count.borrow(), 2);
}

struct Counter(Rc<RefCell<u32>>);

impl pipx::Observer<u8> for Counter {
    fn call(&self, _value: &u8) {
        *self.0.borrow_mut() += 1;
    }
}

#[test]
fn transform_pipeline_converts_step_errors() {
    let output = TransformPipeline::new().send(1u64).pipe(AddOne).pipe(AddOne).then_return().unwrap();
    assert_eq!(output, 3);
    let failed = TransformPipeline::new().send(1u64).pipe(Refuse).pipe(AddOne).then_return();
    assert!(matches!(failed, Err(PipelineError::Message(ref text)) if text == "refused"));
    let skipped = TransformPipeline::new().send(1u64).unless(true, Refuse).then_return().unwrap();
    assert_eq!(skipped, 1);
    let missing = TransformPipeline::<u64>::default().pipe(AddOne).then_return();
    assert!(matches!(missing, Err(PipelineError::InputMissing)));
}

#[test]
fn async_pipeline_configuration_starts_with_value() {
    let started = AsyncPipeline::new().send(5u8).through(vec!['a']).through(vec!['b', 'c']).start();
    match started {
        Ok((value, steps)) => {
            assert_eq!(value, 5);
            assert_eq!(steps, vec!['b', 'c']);
        },
        Err(error) => panic!("unexpected error: {error:?}"),
    }
    let missing = AsyncPipeline::<u8, char>::default().through(vec!['a']).start();
    assert!(matches!(missing, Err(PipelineError::InputMissing)));
    let helper = pipx::async_pipeline::<u8, char>(9).start();
    assert!(matches!(helper, Ok((9, ref steps)) if steps.is_empty()));
}

#[test]
fn async_transform_configuration_keeps_order() {
    let steps = transform::AsyncPipeline::new().add(1u8).add(2u8);
    assert_eq!(*steps.pipes(), vec![1u8, 2u8]);
}

struct DoubleStep;

impl Pipe<u64, PipelineError> for DoubleStep {
    fn handle(&self, input: u64) -> Result<u64, PipelineError> {
        Ok(input * 2)
    }
}

struct DoubleMiddleware;

impl pipx::Pipe<u64> for DoubleMiddleware {
    fn handle(&self, passable: u64, next: pipx::Next<'_, u64>) -> pipx::PipelineResult<u64> {
        next.handle(passable * 2)
    }
}

struct AddOneMiddleware;

impl pipx::Pipe<u64> for AddOneMiddleware {
    fn handle(&self, passable: u64, next: pipx::Next<'_, u64>) -> pipx::PipelineResult<u64> {
        next.handle(passable + 1)
    }
}

#[test]
fn both_pipeline_kinds_agree_on_maps() {
    let transformed =
        TransformPipeline::new().send(5u64).pipe(DoubleStep).pipe(AddOne).then_return().unwrap();
    let continued = pipx::pipeline(5u64)
        .pipe(DoubleMiddleware)
        .pipe(AddOneMiddleware)
        .then_return()
        .unwrap();
    assert_eq!(transformed, 11);
    assert_eq!(continued, 11);
}

#[test]
fn async_step_runs_each_position_then_ends() {
    let steps = vec!['a', 'b'];
    assert!(matches!(pipx::async_step(&steps, 0), pipx::AsyncStep::Run(0)));
    assert!(matches!(pipx::async_step(&steps, 1), pipx::AsyncStep::Run(1)));
    assert!(matches!(pipx::async_step(&steps, 2), pipx::AsyncStep::Done));
    let empty: Vec<char> = Vec::new();
    assert!(matches!(pipx::async_step(&empty, 0), pipx::AsyncStep::Done));
}

#[derive(Debug)]
struct Refused(&'static str);

impl From<Refused> for PipelineError {
    fn from(error: Refused) -> Self {
        PipelineError::Message(error.0.to_string())
    }
}

#[test]
fn async_finish_converts_step_errors() {
    let done = pipx::async_finish::<u8, Refused>(Ok(4));
    assert!(matches!(done, Ok(4)));
    let failed = pipx::async_finish::<u8, Refused>(Err(Refused("no")));
    assert!(matches!(failed, Err(PipelineError::Message(ref text)) if text == "no"));
    let missing = pipx::async_finish::<u8, PipelineError>(Err(PipelineError::InputMissing));
    assert!(matches!(missing, Err(PipelineError::InputMissing)));
}

#[test]
fn async_transform_progress_stops_at_first_error() {
    let steps = transform::AsyncPipeline::new().add('a').add('b');
    assert!(matches!(steps.begin::<u8, u8>(3), transform::AsyncProgress::Next(0, 3)));
    assert!(matches!(steps.advance::<u8, u8>(0, Ok(4)), transform::AsyncProgress::Next(1, 4)));
    assert!(matches!(steps.advance::<u8, u8>(1, Ok(5)), transform::AsyncProgress::Finished(Ok(5))));
    assert!(matches!(steps.advance::<u8, u8>(0, Err(9)), transform::AsyncProgress::Finished(Err(9))));
    let empty = transform::AsyncPipeline::<char>::new();
    assert!(matches!(empty.begin::<u8, u8>(3), transform::AsyncProgress::Finished(Ok(3))));
}

#[test]
fn taps_see_only_values_before_a_failure() {
    let seen = Rc::new(RefCell::new(Vec::new()));
    let first = seen.clone();
    let second = seen.clone();
    let result = transform::Pipeline::new()
        .send(" a ".to_string())
        .through(vec![Box::new(TrimStep), Box::new(RejectStep), Box::new(UpperStep)])
        .tap(move |value: &String| first.borrow_mut().push(format!("1:{value}")))
        .tap(move |value: &String| second.borrow_mut().push(format!("2:{value}")))
        .then_return();
    assert!(matches!(result, Err(transform::PipelineError::StepFailure(_))));
    assert_eq!(*seen.borrow(), vec!["1:a".to_string(), "2:a".to_string()]);
}

#[test]
fn taps_are_kept_by_later_builders() {
    let seen = Rc::new(RefCell::new(Vec::new()));
    let log = seen.clone();
    let output = transform::Pipeline::new()
        .tap(move |value: &String| log.borrow_mut().push(value.clone()))
        .send("x".to_string())
        .through(vec![Box::new(UpperStep)])
        .when(true, Box::new(TrimStep))
        .unless(true, Box::new(RejectStep))
        .then_return()
        .unwrap();
    assert_eq!(output, "X");
    assert_eq!(*seen.borrow(), vec!["X".to_string(), "X".to_string()]);
}

#[test]
fn step_failure_from_error_uses_debug_text() {
    let failure = pipx::StepFailure::from_error("refuse", &Refused("late"));
    assert_eq!(failure.step, "refuse");
    assert_eq!(failure.message, "Refused(\"late\")");
}

#[test]
fn adding_a_step_runs_it_on_the_earlier_output() {
    let base = sequential::Pipeline::new().add(Trim);
    let earlier = base.execute("  mixed Case ".to_string());
    let extended = sequential::Pipeline::new().add(Trim).add(Upper);
    let expected = earlier.and_then(|value| Upper.handle(value));
    assert_eq!(extended.execute("  mixed Case ".to_string()), expected);
    let failing = sequential::Pipeline::new().add(Reject).add(Upper);
    assert_eq!(failing.execute("x".to_string()), Err("rejected".to_string()));
}
