//! Names of the built-in transforms of version 2 configs.
use vstd::prelude::*;

verus! {

/// ACEScct to ACES2065-1.
pub const ACESCCT_TO_ACES2065_1: &'static str = "ACEScct_to_ACES2065-1";
/// ACES2065-1 to ACEScct.
pub const ACES2065_1_TO_ACESCCT: &'static str = "ACES2065-1_to_ACEScct";
/// ACEScg to ACES2065-1.
pub const ACESCG_TO_ACES2065_1: &'static str = "ACEScg_to_ACES2065-1";
/// ACES2065-1 to ACEScg.
pub const ACES2065_1_TO_ACESCG: &'static str = "ACES2065-1_to_ACEScg";
/// sRGB to linear sRGB.
pub const SRGB_TO_LINEAR: &'static str = "sRGB_to_Linear";
/// Linear sRGB to sRGB.
pub const LINEAR_TO_SRGB: &'static str = "Linear_to_sRGB";
/// Rec.709 to linear.
pub const REC709_TO_LINEAR: &'static str = "Rec709_to_Linear";
/// Linear to Rec.709.
pub const LINEAR_TO_REC709: &'static str = "Linear_to_Rec709";

} // verus!
