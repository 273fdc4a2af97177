//! Removal of overlaps in glyph outlines.
//!
//! A glyph outline arrives as a set of closed contours made of mixed
//! line, quadratic and cubic segments.  The library canonicalizes them
//! into cubic-bezier closed loops, folds them through a boolean path
//! union, and re-derives which loops are holes from containment parity,
//! fixing each loop's orientation accordingly.  The menu-availability
//! rules of the surrounding editor live here as well.

pub mod menu;
pub mod path;
pub mod union;
pub mod nesting;
