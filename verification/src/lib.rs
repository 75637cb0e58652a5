//! Simulation core of a tick-driven incremental game: a clamped resource
//! economy coupled to a procedurally generated tile-grid exploration mode.
//!
//! The crate owns the game-state machine and simulation engine: screen-mode
//! transitions (base / embark), the tick-based economy, tilemap generation,
//! and grid movement with collision checks. Rendering, input polling and the
//! window loop live outside the library and talk to it through plain values:
//! a queue of [`game::UiEvent`] intents in, read-only state snapshots out.

pub mod decimal;
pub mod frame;
pub mod game;
pub mod resources;
pub mod tilemap;
