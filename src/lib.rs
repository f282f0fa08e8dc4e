//! Orchestration core of a small physics sandbox scene: where bodies are
//! spawned, where the cursor marker floats and how the light moves.
//!
//! All real quantities are fixed-point integers with `geometry::UNIT` steps
//! per whole unit, so every result is exact and reproducible.
pub mod geometry;
pub mod body;
pub mod light;
pub mod scene;
