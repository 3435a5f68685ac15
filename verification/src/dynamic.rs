//! Properties that can be adjusted at run time.
use vstd::prelude::*;

verus! {

/// Dynamic property types that can be adjusted at runtime.
#[derive(Debug, Clone, Copy, PartialEq, Eq, Hash, Structural)]
pub enum DynamicPropertyType {
    /// Exposure adjustment (stops).
    Exposure,
    /// Contrast adjustment (multiplier around pivot).
    Contrast,
    /// Gamma adjustment (power).
    Gamma,
    /// Saturation adjustment (multiplier).
    Saturation,
}

} // verus!
