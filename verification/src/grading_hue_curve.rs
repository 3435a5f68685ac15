//! Grading styles.
use vstd::prelude::*;

verus! {

/// Grading style (HSY variant selector).
#[derive(Debug, Clone, Copy, PartialEq, Eq, Structural)]
pub enum GradingStyle {
    Log,
    Linear,
    Video,
}

impl Default for GradingStyle {
    /// The logarithmic style.
    fn default() -> (r: Self)
        ensures
            r == GradingStyle::Log,
    {
        GradingStyle::Log
    }
}

} // verus!
