pub mod async_pipeline;
pub mod pipeline;
pub mod transform_pipeline;

pub use async_pipeline::{async_finish, async_pipeline, async_step, AsyncPipeline, AsyncStep};
pub use pipeline::Pipeline;
pub use transform_pipeline::TransformPipeline;
