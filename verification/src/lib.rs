//! Geometry and resolution engine for multi-monitor screen capture.
//!
//! The library maps virtual-desktop rectangles to the single monitor that
//! owns them, crops and encodes rasters, and resolves which top-level
//! window is unambiguously visible at a point under a strict occlusion
//! rule.  Platform enumeration and raster grabs are the surrounding
//! glue's work; it hands in plain values — monitor lists, window lists,
//! pixel buffers — and the engine's answers are verified.  Only the
//! codecs, case folding, the clock and the pictures directory sit behind
//! trusted wrappers.

pub mod capture;
pub mod codec;
pub mod errors;
pub mod geometry;
pub mod hotkeys;
pub mod monitor;
pub mod occlusion;
pub mod raster;
pub mod region;
pub mod text;
pub mod transport;
pub mod utils;
pub mod windows;
