//! Core of a desktop helper that watches global pointer input, shows a small
//! overlay control where a drag ends, and opens a floating panel of presets
//! when that control is clicked.
//!
//! The crate holds the decisions only: geometry, the gesture state machine,
//! the published state of the two surfaces, and the cached preset store.
//! Windows, the input hook and the backing file belong to the embedding
//! application, which feeds events in and carries the returned actions out.
//!
//! Coordinates are whole screen units held in `i64`; sizes are `u32`.

pub mod geometry;
pub mod surface;
pub mod gesture;
pub mod bridge;
pub mod presets;
pub mod store;
