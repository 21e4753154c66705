//! CPU/GPU frame synchronization with a ring of back buffers.
//!
//! The library models the frame-pacing protocol a renderer drives around a
//! presentation surface: a fixed ring of frame buffers, one command recorder
//! per ring slot, a monotonically increasing fence, and a per-slot table of
//! the last fence value submitted for that slot.  The protocol decides when a
//! slot may be reused, when the queue must be drained, and in which order a
//! resize may release and recreate the buffers.  Every decision is verified;
//! the native graphics calls themselves (device, swapchain, command lists)
//! are performed by the embedding program, which drives this state machine.

pub mod barrier;
pub mod config;
pub mod device;
pub mod engine;
pub mod error;
pub mod fence;
pub mod frame;
pub mod parse;
pub mod timer;

pub use config::Config;
