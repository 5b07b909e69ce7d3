//! Descriptor bookkeeping for a small family of fixed GPU compute kernels.
//!
//! The crate decides what a kernel asks of the device (shader, descriptor-set
//! layout, push constants, pool capacities) and keeps account of the
//! descriptor sets that are carved from its pool. Talking to the device itself
//! is left to the embedding program.

pub mod compute;
mod counts;
pub mod driver;
pub mod lemmas;
pub mod pso;
pub mod spirv;
