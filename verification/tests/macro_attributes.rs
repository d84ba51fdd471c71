use pipx::{Next, Pipe, PipelineError, PipelineResult, Pipeline, TransformPipe, TransformPipeline};

struct MacroMiddleware;

impl MacroMiddleware {
    fn handle(&self, passable: String, next: Next<'_, String>) -> PipelineResult<String> {
        next.handle(format!("macro:{passable}"))
    }
}

impl Pipe<String, PipelineError> for MacroMiddleware {
    fn handle(
        &self,
        passable: String,
        next: Next<'_, String, PipelineError>,
    ) -> PipelineResult<String, PipelineError> {
        self.handle(passable, next)
    }
}

struct MacroTransform;

impl MacroTransform {
    fn handle(&self, passable: String) -> PipelineResult<String> {
        Ok(passable.to_uppercase())
    }
}

impl TransformPipe<String, PipelineError> for MacroTransform {
    fn handle(&self, passable: String) -> PipelineResult<String, PipelineError> {
        self.handle(passable)
    }
}

#[test]
fn pipe_macro_implements_middleware_trait() {
    let result = Pipeline::new()
        .send("hello".to_string())
        .when(true, std::sync::Arc::new(MacroMiddleware))
        .then_return()
        .unwrap();

    assert_eq!(result, "macro:hello");
}

#[test]
fn transform_pipe_macro_implements_transform_trait() {
    let result = TransformPipeline::new()
        .send("hello".to_string())
        .when(true, std::sync::Arc::new(MacroTransform))
        .then_return()
        .unwrap();

    assert_eq!(result, "HELLO");
}
