//! A streaming feature engine: a vector of 256 feature slots that a stream
//! of market events updates, read out at the end of each aggregation slot
//! together with the two slots before it.
//!
//! Numbers are carried by their IEEE 754 bit patterns. The engine decides
//! which slots an event touches, with which operands and in which order,
//! and it keeps the buffers. What it computes is stated over the operations
//! of an [`arithmetic::Arithmetic`], which the caller supplies: the
//! rounding itself is not the engine's.

pub mod arithmetic;
pub mod catalog;
pub mod engine;
pub mod event;
pub mod features;
pub mod flush;
pub mod functors;
pub mod log;
pub mod registry;
pub mod scalar;
pub mod state;
mod text;
pub mod theorems;
pub mod welford;

pub use engine::FeatureEngine;
pub use event::PyEvent;
pub use log::ParsedEvent;
