//! A top-down horse-race simulation engine.
//!
//! Autonomous agents ("horses") move across a raster arena, bounce off
//! walls and each other through an eight-direction probe/bitmask collision
//! model, and the race advances through Startup, Racing and Victory phases.
//!
//! All world quantities (positions, headings, speeds, times) are fixed-point
//! integers scaled by [`num::SCALE`] (units of 1/65536 of a pixel or second),
//! so every rule of the engine is stated and proved exactly.  Rendering,
//! asset loading, audio playback and configuration files live outside this
//! crate; the engine receives plain values (elapsed time, audio-completion
//! flags, the arena's translucency bytes) and hands back plain state.

pub mod arena;
pub mod data;
pub mod dirs;
pub mod horse;
pub mod mask;
pub mod num;
pub mod race;
pub mod rng;
pub mod startup;
pub mod vec2;
pub mod victory;
