//! Core of a double/triple-buffered presentation engine: the lifecycle of the
//! chain of render targets, the per-frame schedule (acquire, submit, present,
//! recycle), the resize/staleness recovery policy, and the cooperative render
//! loop that ties them together.
//!
//! The GPU and the windowing system are external collaborators: they perform
//! the actual image acquisition, queue submission and event delivery, and hand
//! their outcomes back as plain values. Every decision taken on those
//! outcomes — what to rebuild, when to skip a frame, how submission is paced
//! against completion — lives here and is verified.

pub mod caps;
pub mod coordinator;
pub mod driver;
pub mod extent;
pub mod fence;
pub mod scheduler;
pub mod target_set;

pub use extent::Extent;
pub use extent::PipelineConfig;
