//! Anchored floating-element placement.
//!
//! Given a floating surface (a tooltip, popover, or context menu) anchored to a
//! reference point, this crate computes the surface's final on-screen position
//! so that it stays inside the visible viewport whenever geometrically
//! possible: corner-based anchoring, axis-wise overflow detection,
//! anchor-switching fallback, and edge-snapping fallback.

pub mod anchor;
pub mod fit;
pub mod geometry;
pub mod overlay;
pub mod settings;
pub mod state;
