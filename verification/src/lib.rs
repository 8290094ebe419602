//! Verified core of a screen-recording editor's frame compositor.
//!
//! The heart of the crate is the layer compositing engine: time-indexed
//! effect segments are filtered for the frame's timestamp, their normalized
//! parameters are resolved into pixel space, and an ordered render plan of
//! draw calls is produced for the GPU executor. Spatial parameters are held
//! in fixed-point form (millionths of a unit) so that every resolution step
//! is exact integer arithmetic; the thin unverified shell converts between
//! these and the floating-point values the graphics API consumes.

pub mod color;
pub mod compositor;
pub mod decimal;
pub mod file_names;
pub mod frame;
pub mod geometry;
pub mod magnifier;
pub mod migrations;
pub mod platform;
pub mod project_names;
pub mod store;
pub mod timeline;
pub mod window_ids;
pub mod window_labels;

pub use geometry::NORM_SCALE;
