//! Procedural 2D tile-world synthesis.
//!
//! A world is generated from a coherent-noise field sampled over a
//! rectangular grid. Each cell's noise value is classified against
//! threshold bands (ground, mountain, forest, bones, house), an occupied
//! set of solid-ground cells is accumulated, and a second autotiling pass
//! derives edge/corner tile variants from each occupied cell's 4-neighbor
//! pattern. The result is a flat list of tile placements (position, sprite
//! variant, tint, draw layer) for a renderer to consume.
//!
//! Noise values are carried as fixed-point integers: thousandths of a
//! noise unit, so a sample `v` in `[-1.0, 1.0]` is represented as
//! `round(1000 * v)` in `[-1000, 1000]`. Sampling the noise field itself
//! is the caller's job (it is floating-point work); the synthesizer here
//! takes the sampled field as data and is deterministic in its inputs.

pub mod autotile;
pub mod classify;
pub mod config;
pub mod generate;
pub mod occupied;
pub mod rng;
pub mod tile;
