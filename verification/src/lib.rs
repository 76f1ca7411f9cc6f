//! A retained-mode scene renderer core: GPU-resident sprite atlas management,
//! damage-tracked frame planning, and the primitive rasterization rules that
//! turn a scene's batches into an ordered display list.
//!
//! The library is pure state and decision logic. Establishing the native GPU
//! connection, uploading textures and executing the display list are left to
//! the embedding layer, which feeds plain values in and carries the planned
//! commands out.

pub mod atlas;
pub mod color;
pub mod context;
pub mod display;
pub mod geometry;
pub mod laws;
pub mod numeric;
pub mod renderer;
pub mod scene;
pub mod session_lock;
pub mod toplevel;

pub use geometry::{Bounds, Corners, Edges, Point, Size};
