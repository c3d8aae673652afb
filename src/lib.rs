//! Selection and highlighting logic for a scene of spinning cubes.
//!
//! The scene keeps an ordered list of cube identifiers with a cursor into it.
//! Exactly one cube, the one under the cursor, carries the selection marker,
//! and a highlight pass gives every cube the appearance that matches its
//! marker. Rendering, input, time and randomness belong to the host engine.

pub mod appearance;
pub mod scene;
pub mod selection;

pub use appearance::{appearance_for, Appearance};
pub use scene::{Cube, Scene};
pub use selection::{CubeSelection, SelectionChange};
