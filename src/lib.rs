//! Escape-time fractals over a pixel grid, with a closed family of update rules.
//!
//! The library holds the decisions of a render: which update rule a name selects,
//! when a pixel's orbit stops, when the observer hears of progress, and whether the
//! rows put together form the grid that was asked for. The floating-point orbit
//! itself is computed by the caller, which answers the escape counter point by point.
//! The Pauli gates, which only swap parts and flip a sign, are computed here on the
//! bit patterns of the parts.

pub mod effect;
pub mod escape;
pub mod gate;
pub mod grid;
pub mod progress;
