//! A frame-driven render-loop controller and its supporting pieces.
//!
//! The heart of the crate is [`easel`], a controller that repeatedly
//! re-schedules itself with a host frame-callback service, gates consumer
//! work on a play/pause state machine, and guarantees clean cancellation on
//! teardown. The host service (scheduler and clock) is modeled explicitly so
//! the controller's lifecycle properties can be stated and proved.

pub mod chart;
pub mod easel;
pub mod fill;
pub mod math;
pub mod pong;
pub mod sugar;
pub mod pause;
pub mod perf;
pub mod sched;
pub mod size;
pub mod time;
pub mod universe;

pub use size::{u32_to_usize, usize_to_u32, SizeU32};
