//! Standard role names.
use vstd::prelude::*;

verus! {

/// Scene-referred linear reference (required).
pub const REFERENCE: &'static str = "reference";
/// Default input color space.
pub const DEFAULT: &'static str = "default";
/// Non-color data (normals, masks).
pub const DATA: &'static str = "data";
/// Scene-referred linear working space.
pub const SCENE_LINEAR: &'static str = "scene_linear";
/// Rendering calculations space.
pub const RENDERING: &'static str = "rendering";
/// Compositing log space.
pub const COMPOSITING_LOG: &'static str = "compositing_log";
/// Linear compositing space.
pub const COMPOSITING_LINEAR: &'static str = "compositing_linear";
/// Color grading space.
pub const COLOR_TIMING: &'static str = "color_timing";
/// Texture painting space.
pub const TEXTURE_PAINT: &'static str = "texture_paint";
/// Matte painting space.
pub const MATTE_PAINT: &'static str = "matte_paint";
/// Color picker display space.
pub const COLOR_PICKING: &'static str = "color_picking";
/// ACES interchange scene-referred.
pub const ACES_INTERCHANGE: &'static str = "aces_interchange";
/// CIE XYZ interchange (D65).
pub const CIE_XYZ_D65_INTERCHANGE: &'static str = "cie_xyz_d65_interchange";

} // verus!
