//! Shapes that work out their own areas, held either behind trait objects
//! (calls resolved at run time) or as one concrete type (resolved when the
//! program is built); both ways meet the same per-position contract.
pub mod metrics;
pub mod triangle;
pub mod collections;
pub mod demo;
pub mod laws;
