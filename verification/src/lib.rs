//! Scans image metadata for geolocation records: GPS coordinates are read as
//! exact rationals, camera text fields are joined and trimmed, capture
//! timestamps rendered, and embedded thumbnails extracted with checked
//! bounds; records survive only with both coordinates present and away
//! from zero.

pub mod container;
pub mod coord;
pub mod extract;
pub mod pipeline;
pub mod text;
