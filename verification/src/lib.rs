//! Host-side state of a small real-time renderer: the geometry that is drawn,
//! the surface configuration, the pipeline description, the per-frame state
//! machine and the mapping from key events to geometry changes.
//!
//! Coordinates and colour channels are fixed-point integers
//! ([`geometry::UNITS_PER_ONE`] units make up `1.0`), so that every statement
//! about them is exact. The caller converts to the device's number format when
//! it uploads.

pub mod frame;
pub mod geometry;
pub mod input;
pub mod pipeline;
pub mod screen;
pub mod startup;
pub mod surface;
