//! A minimal point-particle renderer core, driven by a GPU shader pipeline.
//!
//! The library owns the logic of the pipeline — shader compilation and
//! linking decisions, the particle store with its aliasing guard, and the
//! per-frame draw orchestration — and states it as verified contracts.
//! The graphics driver itself is an outside service: the core emits plain
//! command values and consumes plain report values, and the surrounding
//! glue performs the actual calls against the rendering context.

pub mod error;
pub mod particle;
pub mod scene;
pub mod store;
pub mod vec2d;
pub mod webgl;
