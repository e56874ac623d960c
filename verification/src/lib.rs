//! Frame preparation for correlation-filter trackers.
//!
//! A grayscale frame is cropped around a target, whitened and windowed into a
//! feature vector, and perturbed into training variants. This crate holds the
//! integer side of that work: the frame type and its layout, the mapping from
//! buffer positions to coordinates, the boundary-safe crop, the making of a
//! frame from a buffer, the places at which the cosine window is evaluated,
//! and the sequencing of the rotation and scale variants. The arithmetic on
//! feature values and the resampling of variants are left to the caller.

pub mod augment;
pub mod convert;
pub mod coords;
pub mod crop;
pub mod error;
pub mod frame;
pub mod window;

pub use crate::augment::{rotated_frames, scaled_frames};
pub use crate::convert::to_imgbuf;
pub use crate::coords::index_to_coords;
pub use crate::crop::window_crop;
pub use crate::error::FrameError;
pub use crate::frame::GrayFrame;
pub use crate::window::window_site;
