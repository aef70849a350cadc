//! Fill descriptions for UI geometry: a solid colour or a gradient of up
//! to sixteen stops.

use vstd::prelude::*;
use crate::fixed::Fx;
use crate::math::{Color, FxVec2};

verus! {

/// One gradient stop: a position along the gradient and its colour.
#[derive(Clone, Copy, Debug, PartialEq, Eq, Structural)]
pub struct GradientPoint {
    pub stop: Fx,
    pub color: Color,
}

/// How UI geometry is filled.
#[derive(Clone, Debug, PartialEq, Eq)]
pub enum Brush {
    /// One flat colour.
    Solid(Color),
    /// A linear gradient between two points.
    LinearGradient { from: FxVec2, to: FxVec2, stops: Vec<GradientPoint> },
    /// A radial gradient around a centre.
    RadialGradient { center: FxVec2, stops: Vec<GradientPoint> },
}

/// A brush carries at most sixteen gradient stops — the size of the
/// uniform arrays the UI shader reserves.
pub open spec fn brush_wf(b: Brush) -> bool {
    match b {
        Brush::Solid(_) => true,
        Brush::LinearGradient { stops, .. } => stops@.len() <= 16,
        Brush::RadialGradient { stops, .. } => stops@.len() <= 16,
    }
}

} // verus!
