//! Transform directions, styles, and the transforms that refer to other config items by name.
use vstd::prelude::*;
use crate::text::{chars_are, chars_of, str_upper, to_uppercase};
use crate::display::opt_str;

verus! {

/// Transform application direction.
#[derive(Debug, Clone, Copy, PartialEq, Eq, Structural)]
pub enum TransformDirection {
    /// Forward transform.
    Forward,
    /// Inverse transform.
    Inverse,
}

impl TransformDirection {
    /// The opposite direction.
    pub fn inverse(self) -> (r: Self)
        ensures
            r == (match self {
                TransformDirection::Forward => TransformDirection::Inverse,
                TransformDirection::Inverse => TransformDirection::Forward,
            }),
            r != self,
    {
        match self {
            TransformDirection::Forward => TransformDirection::Inverse,
            TransformDirection::Inverse => TransformDirection::Forward,
        }
    }
}

/// The opposite of a direction.
pub open spec fn flip(d: TransformDirection) -> TransformDirection {
    match d {
        TransformDirection::Forward => TransformDirection::Inverse,
        TransformDirection::Inverse => TransformDirection::Forward,
    }
}

/// Inverting a direction twice gives it back.
pub proof fn law_inverse_involution(d: TransformDirection)
    ensures
        flip(flip(d)) == d,
        flip(d) != d,
{
}

/// Interpolation method for LUTs.
#[derive(Debug, Clone, Copy, PartialEq, Eq, Structural)]
pub enum Interpolation {
    /// Nearest neighbor.
    Nearest,
    /// Linear interpolation.
    Linear,
    /// Tetrahedral interpolation.
    Tetrahedral,
    /// Best available.
    Best,
}

/// Negative value handling for exponents.
#[derive(Debug, Clone, Copy, PartialEq, Eq, Structural)]
pub enum NegativeStyle {
    /// Clamp negatives to zero.
    Clamp,
    /// Mirror: sign * pow(abs(x), exp).
    Mirror,
    /// Pass through unchanged.
    PassThru,
    /// Linearly extrapolate negatives.
    Linear,
}

/// CDL style.
#[derive(Debug, Clone, Copy, PartialEq, Eq, Structural)]
pub enum CdlStyle {
    /// ASC CDL v1.2 standard.
    AscCdl,
    /// No clamping.
    NoClamp,
}

/// Range transform style.
#[derive(Debug, Clone, Copy, PartialEq, Eq, Structural)]
pub enum RangeStyle {
    /// Clamp values to range.
    Clamp,
    /// No clamping, just scale.
    NoClamp,
}

/// Fixed function styles.
#[derive(Debug, Clone, Copy, PartialEq, Eq, Structural)]
pub enum FixedFunctionStyle {
    AcesRedMod03,
    AcesRedMod10,
    AcesGlow03,
    AcesGlow10,
    AcesDarkToDim10,
    AcesGamutComp13,
    Rec2100Surround,
    RgbToHsv,
    HsvToRgb,
    XyzToXyy,
    XyyToXyz,
    XyzToUvy,
    UvyToXyz,
    XyzToLuv,
    LuvToXyz,
    LinToPq,
    PqToLin,
    LinToGammaLog,
    GammaLogToLin,
    LinToDoubleLog,
    DoubleLogToLin,
    AcesOutputTransform20,
    AcesRgbToJmh20,
    AcesJmhToRgb20,
    AcesTonescaleCompress20,
    AcesGamutCompress20,
    RgbToHsyLin,
    HsyLinToRgb,
    RgbToHsyLog,
    HsyLogToRgb,
    RgbToHsyVid,
    HsyVidToRgb,
}

/// Exposure/contrast style.
#[derive(Debug, Clone, Copy, PartialEq, Eq, Structural)]
pub enum ExposureContrastStyle {
    /// Linear domain.
    Linear,
    /// Video domain.
    Video,
    /// Logarithmic.
    Logarithmic,
}

/// Allocation type of an allocation transform.
#[derive(Debug, Clone, Copy, PartialEq, Eq, Structural)]
pub enum AllocationType {
    /// Uniform allocation.
    Uniform,
    /// Logarithmic allocation.
    Log2,
}

/// Grading hue curve style.
#[derive(Debug, Clone, Copy, PartialEq, Eq, Structural)]
pub enum GradingHueCurveStyle {
    /// Log style.
    Log,
    /// Linear style.
    Linear,
    /// Video style.
    Video,
}

/// The direction a config's `direction` key names.
pub open spec fn direction_of(dir: Option<Seq<char>>) -> TransformDirection {
    match dir {
        Some(s) => if s == "inverse"@ || s == "Inverse"@ || s == "INVERSE"@ {
            TransformDirection::Inverse
        } else {
            TransformDirection::Forward
        },
        None => TransformDirection::Forward,
    }
}

/// Parses a `direction` value: `inverse` (in lower, title or upper case)
/// selects the inverse direction; anything else, or nothing, the forward one.
pub fn parse_direction(dir: Option<&str>) -> (r: TransformDirection)
    ensures
        r == direction_of(opt_str(dir)),
{
    match dir {
        Some(s) => {
            let c = chars_of(s);
            if chars_are(&c, "inverse") || chars_are(&c, "Inverse") || chars_are(&c, "INVERSE") {
                TransformDirection::Inverse
            } else {
                TransformDirection::Forward
            }
        },
        None => TransformDirection::Forward,
    }
}

/// The interpolation a config's `interpolation` key names.
pub open spec fn interpolation_of(v: Option<Seq<char>>) -> Interpolation {
    match v {
        Some(s) => if s == "nearest"@ || s == "Nearest"@ || s == "NEAREST"@ {
            Interpolation::Nearest
        } else if s == "tetrahedral"@ || s == "Tetrahedral"@ || s == "TETRAHEDRAL"@ {
            Interpolation::Tetrahedral
        } else if s == "best"@ || s == "Best"@ || s == "BEST"@ {
            Interpolation::Best
        } else {
            Interpolation::Linear
        },
        None => Interpolation::Linear,
    }
}

/// Parses an `interpolation` value; unknown values and no value give `Linear`.
pub fn parse_interpolation(interp: Option<&str>) -> (r: Interpolation)
    ensures
        r == interpolation_of(opt_str(interp)),
{
    match interp {
        Some(s) => {
            let c = chars_of(s);
            if chars_are(&c, "nearest") || chars_are(&c, "Nearest") || chars_are(&c, "NEAREST") {
                Interpolation::Nearest
            } else if chars_are(&c, "tetrahedral") || chars_are(&c, "Tetrahedral") || chars_are(
                &c,
                "TETRAHEDRAL",
            ) {
                Interpolation::Tetrahedral
            } else if chars_are(&c, "best") || chars_are(&c, "Best") || chars_are(&c, "BEST") {
                Interpolation::Best
            } else {
                Interpolation::Linear
            }
        },
        None => Interpolation::Linear,
    }
}

/// The fixed-function style an upper-cased style name names.
pub open spec fn fixed_function_of(u: Seq<char>) -> FixedFunctionStyle {
    if u == "ACES_REDMOD03"@ || u == "ACES_RED_MOD_03"@ {
        FixedFunctionStyle::AcesRedMod03
    } else if u == "ACES_REDMOD10"@ || u == "ACES_RED_MOD_10"@ {
        FixedFunctionStyle::AcesRedMod10
    } else if u == "ACES_GLOW03"@ || u == "ACES_GLOW_03"@ {
        FixedFunctionStyle::AcesGlow03
    } else if u == "ACES_GLOW10"@ || u == "ACES_GLOW_10"@ {
        FixedFunctionStyle::AcesGlow10
    } else if u == "ACES_GAMUTCOMP13"@ || u == "ACES_GAMUT_COMP_13"@ {
        FixedFunctionStyle::AcesGamutComp13
    } else if u == "RGB_TO_HSV"@ || u == "RGBTOHSV"@ {
        FixedFunctionStyle::RgbToHsv
    } else if u == "HSV_TO_RGB"@ || u == "HSVTORGB"@ {
        FixedFunctionStyle::HsvToRgb
    } else if u == "XYZ_TO_XYY"@ || u == "XYZTOYXY"@ {
        FixedFunctionStyle::XyzToXyy
    } else if u == "XYY_TO_XYZ"@ || u == "XYYTOXYZ"@ {
        FixedFunctionStyle::XyyToXyz
    } else if u == "XYZ_TO_UVY"@ || u == "XYZTOUVY"@ {
        FixedFunctionStyle::XyzToUvy
    } else if u == "UVY_TO_XYZ"@ || u == "UVYTOXYZ"@ {
        FixedFunctionStyle::UvyToXyz
    } else if u == "XYZ_TO_LUV"@ || u == "XYZTOLUV"@ {
        FixedFunctionStyle::XyzToLuv
    } else if u == "LUV_TO_XYZ"@ || u == "LUVTOXYZ"@ {
        FixedFunctionStyle::LuvToXyz
    } else {
        FixedFunctionStyle::AcesRedMod03
    }
}

/// Parses a fixed-function style name after Unicode upper-casing; unknown
/// names give `AcesRedMod03`.
pub fn parse_fixed_function_style(style: &str) -> (r: FixedFunctionStyle)
    ensures
        r == fixed_function_of(str_upper(style@)),
{
    let up = to_uppercase(style);
    let u = chars_of(up.as_str());
    if chars_are(&u, "ACES_REDMOD03") || chars_are(&u, "ACES_RED_MOD_03") {
        FixedFunctionStyle::AcesRedMod03
    } else if chars_are(&u, "ACES_REDMOD10") || chars_are(&u, "ACES_RED_MOD_10") {
        FixedFunctionStyle::AcesRedMod10
    } else if chars_are(&u, "ACES_GLOW03") || chars_are(&u, "ACES_GLOW_03") {
        FixedFunctionStyle::AcesGlow03
    } else if chars_are(&u, "ACES_GLOW10") || chars_are(&u, "ACES_GLOW_10") {
        FixedFunctionStyle::AcesGlow10
    } else if chars_are(&u, "ACES_GAMUTCOMP13") || chars_are(&u, "ACES_GAMUT_COMP_13") {
        FixedFunctionStyle::AcesGamutComp13
    } else if chars_are(&u, "RGB_TO_HSV") || chars_are(&u, "RGBTOHSV") {
        FixedFunctionStyle::RgbToHsv
    } else if chars_are(&u, "HSV_TO_RGB") || chars_are(&u, "HSVTORGB") {
        FixedFunctionStyle::HsvToRgb
    } else if chars_are(&u, "XYZ_TO_XYY") || chars_are(&u, "XYZTOYXY") {
        FixedFunctionStyle::XyzToXyy
    } else if chars_are(&u, "XYY_TO_XYZ") || chars_are(&u, "XYYTOXYZ") {
        FixedFunctionStyle::XyyToXyz
    } else if chars_are(&u, "XYZ_TO_UVY") || chars_are(&u, "XYZTOUVY") {
        FixedFunctionStyle::XyzToUvy
    } else if chars_are(&u, "UVY_TO_XYZ") || chars_are(&u, "UVYTOXYZ") {
        FixedFunctionStyle::UvyToXyz
    } else if chars_are(&u, "XYZ_TO_LUV") || chars_are(&u, "XYZTOLUV") {
        FixedFunctionStyle::XyzToLuv
    } else if chars_are(&u, "LUV_TO_XYZ") || chars_are(&u, "LUVTOXYZ") {
        FixedFunctionStyle::LuvToXyz
    } else {
        FixedFunctionStyle::AcesRedMod03
    }
}

/// Builtin transfer function transform.
#[derive(Debug, Clone)]
pub struct BuiltinTransferTransform {
    /// Transfer function name.
    pub style: String,
    /// Direction.
    pub direction: TransformDirection,
}

/// File-based transform (LUT, etc.).
#[derive(Debug, Clone)]
pub struct FileTransform {
    /// Source file path.
    pub src: String,
    /// CDL correction ID.
    pub ccc_id: Option<String>,
    /// Interpolation method.
    pub interpolation: Interpolation,
    /// Direction.
    pub direction: TransformDirection,
}

/// Reference to a named color space.
#[derive(Debug, Clone)]
pub struct ColorSpaceTransform {
    /// Source color space name.
    pub src: String,
    /// Destination color space name.
    pub dst: String,
    /// Direction.
    pub direction: TransformDirection,
}

/// Reference to named looks.
#[derive(Debug, Clone)]
pub struct LookTransform {
    /// Source color space.
    pub src: String,
    /// Destination color space.
    pub dst: String,
    /// Look names (comma-separated).
    pub looks: String,
    /// Direction.
    pub direction: TransformDirection,
}

/// Display/view transform reference.
#[derive(Debug, Clone)]
pub struct DisplayViewTransform {
    /// Source color space.
    pub src: String,
    /// Display name.
    pub display: String,
    /// View name.
    pub view: String,
    /// Direction.
    pub direction: TransformDirection,
}

/// Builtin transform by name.
#[derive(Debug, Clone)]
pub struct BuiltinTransform {
    /// Builtin name (e.g., "ACEScct_to_ACES2065-1").
    pub style: String,
    /// Direction.
    pub direction: TransformDirection,
}

} // verus!
