//! A backend-agnostic metrics facade: instrument capabilities, a named
//! metric wrapper, a generic registry over pluggable backends, and the
//! rendering contract that turns accumulated state into an exposition payload.

pub mod health;
pub mod memory;
pub mod metrics;
pub mod mock;
pub mod prometheus;
pub mod registry;
pub mod renderer;
pub mod standalone;
