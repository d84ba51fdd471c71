pub mod async_pipeline;
pub mod error;
pub mod infallible;
pub mod pipe;
pub mod pipeline;
pub mod sequential;
pub mod tapped;
pub mod utility;

pub use error::{PipelineError, PipelineResult};
pub use pipe::Pipe;
pub use utility::{require_passable, run_taps};
pub use pipeline::Pipeline;
pub use async_pipeline::{AsyncPipeline, AsyncProgress};
