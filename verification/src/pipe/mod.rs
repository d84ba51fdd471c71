pub mod behavior;
pub mod next;
pub mod pipe;

pub use next::Next;
pub use pipe::Pipe;
pub(crate) use next::Remaining;
