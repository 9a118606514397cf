//! A pannable SVG viewport: a fixed 100x100 view box whose center is dragged
//! by pointer gestures. The crate holds the gesture state machine, the
//! viewport reducer, and the rendering of the `viewBox` attribute string.

pub mod gesture;
pub mod numfmt;
pub mod viewer;
pub mod viewport;
