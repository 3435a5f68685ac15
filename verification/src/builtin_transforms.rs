//! Styles of the built-in transforms, and the lookup of a built-in transform
//! by its style name.
use vstd::prelude::*;
use crate::text::{chars_of, push_char, str_eq, str_lower, to_lowercase};

verus! {

/// Transfer function style of a built-in transform.
#[derive(Debug, Clone, Copy)]
pub enum TransferStyle {
    AcesCct,
    AcesCc,
    LogC3,
    LogC4,
    SLog3,
    VLog,
    Log3G10,
    Srgb,
    Rec709,
    AppleLog,
    CanonCLog2,
    CanonCLog3,
    /// SMPTE ST 2084.
    Pq,
    /// Hybrid log-gamma.
    Hlg,
    /// Rec.1886 (gamma 2.4).
    Rec1886,
    /// Gamma 2.2.
    Gamma22,
    /// Gamma 2.6 (DCI).
    Gamma26,
}

/// Limiting primaries of an ACES 1.x output transform.
#[derive(Debug, Clone, Copy, PartialEq, Eq, Structural)]
pub enum Aces1Primaries {
    Rec709,
    P3D65,
    Rec2020,
}

/// The variant of an ACES 1.x output transform that its name selects.
#[derive(Debug, Clone, Copy, PartialEq, Eq, Structural)]
pub enum Aces1Output {
    /// HDR video: peak luminance in nits and limiting primaries.
    Hdr { peak_nits: u32, limiting: Aces1Primaries },
    /// SDR with D60 white simulated on a D65 display (cinema or video tone).
    SdrD60SimD65 { cinema: bool, video: bool },
    /// SDR cinema with D60 white simulated on a DCI projector.
    SdrD60SimDci,
    /// SDR cinema with D65 white simulated on a DCI projector.
    SdrD65SimDci,
    /// SDR limited to the given primaries (video tone or not).
    SdrLimited { video: bool, limiting: Aces1Primaries },
    /// Plain SDR (video tone or not).
    Sdr { video: bool },
}

/// White point and primaries that an ACES 2.0 output transform limits to.
#[derive(Debug, Clone, Copy, PartialEq, Eq, Structural)]
pub enum Aces2Primaries {
    Rec709,
    Rec709D60,
    P3D65,
    P3D60,
    Rec2020,
    Rec2020D60,
}

/// An ACES 2.0 output transform: peak luminance in nits and limiting primaries.
#[derive(Debug, Clone, Copy, PartialEq, Eq, Structural)]
pub struct Aces2Output {
    pub peak_nits: u32,
    pub limiting: Aces2Primaries,
}

/// A built-in transform that a style name selects.
#[derive(Debug, Clone, Copy, PartialEq, Eq, Structural)]
pub enum BuiltinStyle {
    /// `identity`.
    Identity,
    /// `acesap0toap1`.
    AcesAp0ToAp1,
    /// `acesap1toap0`.
    AcesAp1ToAp0,
    /// `acesap0toxyzd65bfd`.
    AcesAp0ToXyzD65Bfd,
    /// `acesap1toxyzd65bfd`.
    AcesAp1ToXyzD65Bfd,
    /// `acesccttoaces20651`.
    AcesCctToAces20651,
    /// `acescctoaces20651`.
    AcesCcToAces20651,
    /// `arrilogc3toaces20651`.
    ArriLogC3ToAces20651,
    /// `arrilogc4toaces20651`.
    ArriLogC4ToAces20651,
    /// `sonyslog3sgamut3toaces20651`.
    SonySLog3SGamut3ToAces20651,
    /// `panasonicvlogvgamuttoaces20651`.
    PanasonicVLogVGamutToAces20651,
    /// `redlog3g10rwgtoaces20651`.
    RedLog3G10RwgToAces20651,
    /// `srgbtoxyzd65`.
    SrgbToXyzD65,
    /// `applelogtoaces20651`.
    AppleLogToAces20651,
    /// `curveapplelogtolinear`.
    CurveAppleLogToLinear,
    /// `canonclog2cgamuttoaces20651`.
    CanonCLog2CGamutToAces20651,
    /// `curvecanonclog2tolinear`.
    CurveCanonCLog2ToLinear,
    /// `canonclog3cgamuttoaces20651`.
    CanonCLog3CGamutToAces20651,
    /// `curvecanonclog3tolinear`.
    CurveCanonCLog3ToLinear,
    /// `utilityacesap0tociexyzd65bfd`.
    UtilityAcesAp0ToCieXyzD65Bfd,
    /// `utilityacesap1tociexyzd65bfd`.
    UtilityAcesAp1ToCieXyzD65Bfd,
    /// `curveacescctlogtolin`.
    CurveAcesCctLogToLinear,
    /// `displayciexyzd65torec.1886rec.709`.
    DisplayCieXyzD65ToRec1886Rec709,
    /// `displayciexyzd65torec.1886rec.2020`.
    DisplayCieXyzD65ToRec1886Rec2020,
    /// `displayciexyzd65tosrgb`.
    DisplayCieXyzD65ToSrgb,
    /// `displayciexyzd65todisplayp3`.
    DisplayCieXyzD65ToDisplayP3,
    /// `displayciexyzd65torec.2100pq`.
    DisplayCieXyzD65ToRec2100Pq,
    /// `displayciexyzd65torec.2100hlg1000nit`.
    DisplayCieXyzD65ToRec2100Hlg1000Nit,
    /// `curvest2084tolinear`.
    CurveSt2084ToLinear,
    /// `curvelineartost2084`.
    CurveLinearToSt2084,
    /// `curvehlgoetfinverse`.
    CurveHlgOetfInverse,
    /// `curvehlgoetf`.
    CurveHlgOetf,
    /// `displayciexyzd65torec.1886rec.709mirrorneg`.
    DisplayCieXyzD65ToRec1886Rec709MirrorNeg,
    /// `displayciexyzd65torec.1886rec.2020mirrorneg`.
    DisplayCieXyzD65ToRec1886Rec2020MirrorNeg,
    /// `displayciexyzd65tosrgbmirrorneg`.
    DisplayCieXyzD65ToSrgbMirrorNeg,
    /// `displayciexyzd65tog2.6p3d65mirrorneg`.
    DisplayCieXyzD65ToG26P3D65MirrorNeg,
    /// `displayciexyzd65tog2.2rec.709`.
    DisplayCieXyzD65ToG22Rec709,
    /// `displayciexyzd65tog2.2rec.709mirrorneg`.
    DisplayCieXyzD65ToG22Rec709MirrorNeg,
    /// `displayciexyzd65tog2.6p3dcibfd`.
    DisplayCieXyzD65ToG26P3DciBfd,
    /// `displayciexyzd65tog2.6p3d65`.
    DisplayCieXyzD65ToG26P3D65,
    /// `displayciexyzd65tog2.6p3d60bfd`.
    DisplayCieXyzD65ToG26P3D60Bfd,
    /// `displayciexyzd65todcdmd65`.
    DisplayCieXyzD65ToDcdmD65,
    /// `displayciexyzd65todisplayp3hdr`.
    DisplayCieXyzD65ToDisplayP3Hdr,
    /// `displayciexyzd65tost2084p3d65`.
    DisplayCieXyzD65ToSt2084P3D65,
    /// `displayciexyzd65tost2084dcdmd65`.
    DisplayCieXyzD65ToSt2084DcdmD65,
    /// `sonyslog3sgamut3.cinetoaces20651`.
    SonySLog3SGamut3CineToAces20651,
    /// `sonyslog3sgamut3venicetoaces20651`.
    SonySLog3SGamut3VeniceToAces20651,
    /// `sonyslog3sgamut3.cinevenicetoaces20651`.
    SonySLog3SGamut3CineVeniceToAces20651,
    /// `redredlogfilmrwgtoaces20651`.
    RedRedLogFilmRwgToAces20651,
    /// `arrialexa`.
    ArriAlexaLogCEi800AwgToAces20651,
    /// `utilityacesap1tolinearrec709bfd`.
    UtilityAcesAp1ToLinearRec709Bfd,
    /// `acesproxy10itoaces20651`.
    AcesProxy10iToAces20651,
    /// `adx10toaces20651`.
    Adx10ToAces20651,
    /// `adx16toaces20651`.
    Adx16ToAces20651,
    /// `aceslmtbluelightartifactfix`.
    AcesLmtBlueLightArtifactFix,
    /// `aceslmtaces1.3referencegamutcompression`.
    AcesLmtAces13ReferenceGamutCompression,
    /// An ACES 1.x output transform.
    AcesOutput1(Aces1Output),
    /// An ACES 2.0 output transform.
    AcesOutput2(Aces2Output),
}
/// The style that one of the first names selects (a normalized name).
pub open spec fn named_style_a(k: Seq<char>) -> Option<BuiltinStyle> {
    if k == "identity"@ {
        Some(BuiltinStyle::Identity)
    } else if k == "acesap0toap1"@ || k == "aces2065toacescg"@ {
        Some(BuiltinStyle::AcesAp0ToAp1)
    } else if k == "acesap1toap0"@ || k == "acescgtoaces2065"@ || k == "acescgtoaces20651"@ {
        Some(BuiltinStyle::AcesAp1ToAp0)
    } else if k == "acesap0toxyzd65bfd"@ || k == "aces20651toxyzd65"@ {
        Some(BuiltinStyle::AcesAp0ToXyzD65Bfd)
    } else if k == "acesap1toxyzd65bfd"@ || k == "acescgtoxyzd65"@ {
        Some(BuiltinStyle::AcesAp1ToXyzD65Bfd)
    } else if k == "acesccttoaces20651"@ || k == "acesccttoaces2065"@ {
        Some(BuiltinStyle::AcesCctToAces20651)
    } else if k == "acescctoaces20651"@ || k == "acescctoaces2065"@ {
        Some(BuiltinStyle::AcesCcToAces20651)
    } else if k == "arrilogc3toaces20651"@ || k == "logc3toaces"@ || k == "arrilogctoaces"@ {
        Some(BuiltinStyle::ArriLogC3ToAces20651)
    } else if k == "arrilogc4toaces20651"@ || k == "logc4toaces"@ {
        Some(BuiltinStyle::ArriLogC4ToAces20651)
    } else if k == "sonyslog3sgamut3toaces20651"@ || k == "slog3toaces"@ || k == "sonyslog3toaces"@ {
        Some(BuiltinStyle::SonySLog3SGamut3ToAces20651)
    } else if k == "panasonicvlogvgamuttoaces20651"@ || k == "vlogtoaces"@ {
        Some(BuiltinStyle::PanasonicVLogVGamutToAces20651)
    } else if k == "redlog3g10rwgtoaces20651"@ || k == "log3g10toaces"@ || k == "redlogtoaces"@ {
        Some(BuiltinStyle::RedLog3G10RwgToAces20651)
    } else if k == "srgbtoxyzd65"@ || k == "srgbtociexyz"@ {
        Some(BuiltinStyle::SrgbToXyzD65)
    } else if k == "applelogtoaces20651"@ || k == "applelogtoaces"@ {
        Some(BuiltinStyle::AppleLogToAces20651)
    } else if k == "curveapplelogtolinear"@ {
        Some(BuiltinStyle::CurveAppleLogToLinear)
    } else if k == "canonclog2cgamuttoaces20651"@ || k == "clog2toaces"@ {
        Some(BuiltinStyle::CanonCLog2CGamutToAces20651)
    } else if k == "curvecanonclog2tolinear"@ {
        Some(BuiltinStyle::CurveCanonCLog2ToLinear)
    } else if k == "canonclog3cgamuttoaces20651"@ || k == "clog3toaces"@ {
        Some(BuiltinStyle::CanonCLog3CGamutToAces20651)
    } else if k == "curvecanonclog3tolinear"@ {
        Some(BuiltinStyle::CurveCanonCLog3ToLinear)
    } else if k == "utilityacesap0tociexyzd65bfd"@ {
        Some(BuiltinStyle::UtilityAcesAp0ToCieXyzD65Bfd)
    } else if k == "utilityacesap1tociexyzd65bfd"@ {
        Some(BuiltinStyle::UtilityAcesAp1ToCieXyzD65Bfd)
    } else if k == "curveacescctlogtolin"@ || k == "curveacescctlogtolinear"@ {
        Some(BuiltinStyle::CurveAcesCctLogToLinear)
    } else if k == "displayciexyzd65torec.1886rec.709"@ || k == "displayxyzd65torec1886rec709"@ {
        Some(BuiltinStyle::DisplayCieXyzD65ToRec1886Rec709)
    } else if k == "displayciexyzd65torec.1886rec.2020"@ || k == "displayxyzd65torec1886rec2020"@ {
        Some(BuiltinStyle::DisplayCieXyzD65ToRec1886Rec2020)
    } else if k == "displayciexyzd65tosrgb"@ || k == "displayxyzd65tosrgb"@ {
        Some(BuiltinStyle::DisplayCieXyzD65ToSrgb)
    } else if k == "displayciexyzd65todisplayp3"@ {
        Some(BuiltinStyle::DisplayCieXyzD65ToDisplayP3)
    } else if k == "displayciexyzd65torec.2100pq"@ || k == "displayxyzd65topq"@ {
        Some(BuiltinStyle::DisplayCieXyzD65ToRec2100Pq)
    } else if k == "displayciexyzd65torec.2100hlg1000nit"@ || k == "displayxyzd65tohlg"@ {
        Some(BuiltinStyle::DisplayCieXyzD65ToRec2100Hlg1000Nit)
    } else {
        None
    }
}
/// The style that one of the other names selects (a normalized name).
pub open spec fn named_style_b(k: Seq<char>) -> Option<BuiltinStyle> {
    if k == "curvest2084tolinear"@ || k == "curvepqtolinear"@ {
        Some(BuiltinStyle::CurveSt2084ToLinear)
    } else if k == "curvelineartost2084"@ || k == "curvelineartopq"@ {
        Some(BuiltinStyle::CurveLinearToSt2084)
    } else if k == "curvehlgoetfinverse"@ || k == "curvehlgtolinear"@ {
        Some(BuiltinStyle::CurveHlgOetfInverse)
    } else if k == "curvehlgoetf"@ || k == "curvelineartohlg"@ {
        Some(BuiltinStyle::CurveHlgOetf)
    } else if k == "displayciexyzd65torec.1886rec.709mirrorneg"@ || k == "displayciexyzd65torec.1886rec.709mirrornegs"@ {
        Some(BuiltinStyle::DisplayCieXyzD65ToRec1886Rec709MirrorNeg)
    } else if k == "displayciexyzd65torec.1886rec.2020mirrorneg"@ || k == "displayciexyzd65torec.1886rec.2020mirrornegs"@ {
        Some(BuiltinStyle::DisplayCieXyzD65ToRec1886Rec2020MirrorNeg)
    } else if k == "displayciexyzd65tosrgbmirrorneg"@ || k == "displayciexyzd65tosrgbmirrornegs"@ {
        Some(BuiltinStyle::DisplayCieXyzD65ToSrgbMirrorNeg)
    } else if k == "displayciexyzd65tog2.6p3d65mirrorneg"@ || k == "displayciexyzd65tog2.6p3d65mirrornegs"@ {
        Some(BuiltinStyle::DisplayCieXyzD65ToG26P3D65MirrorNeg)
    } else if k == "displayciexyzd65tog2.2rec.709"@ || k == "displayxyzd65tog2.2rec709"@ {
        Some(BuiltinStyle::DisplayCieXyzD65ToG22Rec709)
    } else if k == "displayciexyzd65tog2.2rec.709mirrorneg"@ || k == "displayciexyzd65tog2.2rec.709mirrornegs"@ {
        Some(BuiltinStyle::DisplayCieXyzD65ToG22Rec709MirrorNeg)
    } else if k == "displayciexyzd65tog2.6p3dcibfd"@ {
        Some(BuiltinStyle::DisplayCieXyzD65ToG26P3DciBfd)
    } else if k == "displayciexyzd65tog2.6p3d65"@ {
        Some(BuiltinStyle::DisplayCieXyzD65ToG26P3D65)
    } else if k == "displayciexyzd65tog2.6p3d60bfd"@ {
        Some(BuiltinStyle::DisplayCieXyzD65ToG26P3D60Bfd)
    } else if k == "displayciexyzd65todcdmd65"@ {
        Some(BuiltinStyle::DisplayCieXyzD65ToDcdmD65)
    } else if k == "displayciexyzd65todisplayp3hdr"@ {
        Some(BuiltinStyle::DisplayCieXyzD65ToDisplayP3Hdr)
    } else if k == "displayciexyzd65tost2084p3d65"@ {
        Some(BuiltinStyle::DisplayCieXyzD65ToSt2084P3D65)
    } else if k == "displayciexyzd65tost2084dcdmd65"@ {
        Some(BuiltinStyle::DisplayCieXyzD65ToSt2084DcdmD65)
    } else if k == "sonyslog3sgamut3.cinetoaces20651"@ || k == "slog3cinetoaces"@ {
        Some(BuiltinStyle::SonySLog3SGamut3CineToAces20651)
    } else if k == "sonyslog3sgamut3venicetoaces20651"@ {
        Some(BuiltinStyle::SonySLog3SGamut3VeniceToAces20651)
    } else if k == "sonyslog3sgamut3.cinevenicetoaces20651"@ {
        Some(BuiltinStyle::SonySLog3SGamut3CineVeniceToAces20651)
    } else if k == "redredlogfilmrwgtoaces20651"@ || k == "redlogfilmtoaces"@ {
        Some(BuiltinStyle::RedRedLogFilmRwgToAces20651)
    } else if k == "arrialexa"@ || k == "arrialexalogcei800awgtoaces20651"@ {
        Some(BuiltinStyle::ArriAlexaLogCEi800AwgToAces20651)
    } else if k == "utilityacesap1tolinearrec709bfd"@ {
        Some(BuiltinStyle::UtilityAcesAp1ToLinearRec709Bfd)
    } else if k == "acesproxy10itoaces20651"@ || k == "acesproxy10toaces"@ {
        Some(BuiltinStyle::AcesProxy10iToAces20651)
    } else if k == "adx10toaces20651"@ || k == "adx10toaces"@ {
        Some(BuiltinStyle::Adx10ToAces20651)
    } else if k == "adx16toaces20651"@ || k == "adx16toaces"@ {
        Some(BuiltinStyle::Adx16ToAces20651)
    } else if k == "aceslmtbluelightartifactfix"@ {
        Some(BuiltinStyle::AcesLmtBlueLightArtifactFix)
    } else if k == "aceslmtaces1.3referencegamutcompression"@ || k == "aceslmtaces13referencegamutcompression"@ {
        Some(BuiltinStyle::AcesLmtAces13ReferenceGamutCompression)
    } else {
        None
    }
}
/// Whether a character separates the words of a style name.
pub open spec fn is_separator(c: char) -> bool {
    c == '-' || c == '_' || c == ' '
}

/// `s` without its separators (`-`, `_` and space).
pub open spec fn strip_separators(s: Seq<char>) -> Seq<char>
    decreases s.len(),
{
    if s.len() == 0 {
        Seq::empty()
    } else if is_separator(s.last()) {
        strip_separators(s.drop_last())
    } else {
        strip_separators(s.drop_last()).push(s.last())
    }
}

/// Whether `p` occurs in `s`.
pub open spec fn has_infix(s: Seq<char>, p: Seq<char>) -> bool {
    exists|i: int| 0 <= i && i + p.len() <= s.len() && #[trigger] s.subrange(i, i + p.len()) == p
}

/// Whether `s` starts with `p`.
pub open spec fn has_prefix(s: Seq<char>, p: Seq<char>) -> bool {
    p.len() <= s.len() && s.subrange(0, p.len() as int) == p
}

/// The ACES 1.x output transform that a normalized name selects; `None` for
/// an HDR name without a known peak (1000, 2000, 4000 or 108 nits) or without
/// known limiting primaries.
pub open spec fn aces1_output_of(s: Seq<char>) -> Option<Aces1Output> {
    let video = has_infix(s, "sdrvideo"@);
    if has_infix(s, "hdr"@) {
        let peak: Option<u32> = if has_infix(s, "1000nit"@) {
            Some(1000u32)
        } else if has_infix(s, "2000nit"@) {
            Some(2000u32)
        } else if has_infix(s, "4000nit"@) {
            Some(4000u32)
        } else if has_infix(s, "108nit"@) {
            Some(108u32)
        } else {
            None
        };
        let limit = if has_infix(s, "rec2020lim"@) {
            Some(Aces1Primaries::Rec2020)
        } else if has_infix(s, "p3lim"@) {
            Some(Aces1Primaries::P3D65)
        } else {
            None
        };
        match (peak, limit) {
            (Some(p), Some(l)) => Some(Aces1Output::Hdr { peak_nits: p, limiting: l }),
            _ => None,
        }
    } else if has_infix(s, "d60simd65"@) {
        Some(Aces1Output::SdrD60SimD65 { cinema: has_infix(s, "sdrcinema"@), video })
    } else if has_infix(s, "d60simdci"@) {
        Some(Aces1Output::SdrD60SimDci)
    } else if has_infix(s, "d65simdci"@) {
        Some(Aces1Output::SdrD65SimDci)
    } else if has_infix(s, "rec709lim"@) {
        Some(Aces1Output::SdrLimited { video, limiting: Aces1Primaries::Rec709 })
    } else if has_infix(s, "p3lim"@) {
        Some(Aces1Output::SdrLimited { video, limiting: Aces1Primaries::P3D65 })
    } else {
        Some(Aces1Output::Sdr { video })
    }
}

/// The built-in transform that a normalized style name selects: one of the
/// named transforms, or an ACES output transform (`acesoutput...` naming
/// version 1.0 or 1.1, else 2.0).
pub open spec fn builtin_style_of(k: Seq<char>) -> Option<BuiltinStyle> {
    match named_style_a(k) {
        Some(b) => Some(b),
        None => match named_style_b(k) {
            Some(b) => Some(b),
            None => if has_prefix(k, "acesoutput"@) && (has_infix(k, "1.0"@) || has_infix(k, "1.1"@)) {
                match aces1_output_of(k) {
                    Some(o) => Some(BuiltinStyle::AcesOutput1(o)),
                    None => None,
                }
            } else if has_prefix(k, "acesoutput"@) && has_infix(k, "2.0"@) {
                match aces2_output_of(k) {
                    Some(o) => Some(BuiltinStyle::AcesOutput2(o)),
                    None => None,
                }
            } else {
                None
            },
        },
    }
}

/// Whether `p` occurs in `s` at position `i`.
fn matches_at(s: &Vec<char>, p: &Vec<char>, i: usize) -> (r: bool)
    requires
        i + p@.len() <= s@.len(),
    ensures
        r == (s@.subrange(i as int, i + p@.len()) == p@),
{
    let mut j: usize = 0;
    while j < p.len()
        invariant
            i + p@.len() <= s@.len(),
            j <= p@.len(),
            forall|m: int| 0 <= m < j ==> s@[i + m] == p@[m],
        decreases p@.len() - j,
    {
        assert(i + j < s.len());
        if s[i + j] != p[j] {
            assert(s@.subrange(i as int, i + p@.len())[j as int] != p@[j as int]);
            return false;
        }
        j = j + 1;
    }
    assert(s@.subrange(i as int, i + p@.len()) =~= p@);
    true
}

/// Whether `p` occurs in `s`.
fn has_infix_exec(s: &Vec<char>, p: &str) -> (r: bool)
    ensures
        r == has_infix(s@, p@),
{
    let pc = chars_of(p);
    if pc.len() > s.len() {
        return false;
    }
    let last = s.len() - pc.len();
    let mut i: usize = 0;
    while i < last
        invariant
            pc@ == p@,
            last == s@.len() - pc@.len(),
            i <= last,
            forall|m: int| 0 <= m < i ==> #[trigger] s@.subrange(m, m + p@.len()) != p@,
        decreases last - i,
    {
        if matches_at(s, &pc, i) {
            return true;
        }
        i = i + 1;
    }
    if matches_at(s, &pc, last) {
        return true;
    }
    assert forall|m: int| 0 <= m && m + p@.len() <= s@.len() implies #[trigger] s@.subrange(m, m + p@.len()) != p@ by {
        if m == last as int {
        }
    }
    false
}

/// Whether `s` starts with `p`.
fn has_prefix_exec(s: &Vec<char>, p: &str) -> (r: bool)
    ensures
        r == has_prefix(s@, p@),
{
    let pc = chars_of(p);
    if pc.len() > s.len() {
        return false;
    }
    matches_at(s, &pc, 0)
}

/// `s` without its separators.
fn strip_separators_exec(s: &str) -> (r: String)
    ensures
        r@ == strip_separators(s@),
{
    let cs = chars_of(s);
    let mut out = String::new();
    let mut i: usize = 0;
    while i < cs.len()
        invariant
            cs@ == s@,
            i <= cs@.len(),
            out@ == strip_separators(s@.take(i as int)),
        decreases cs@.len() - i,
    {
        assert(s@.take(i + 1).drop_last() =~= s@.take(i as int));
        let c = cs[i];
        if !(c == '-' || c == '_' || c == ' ') {
            push_char(&mut out, c);
        }
        i = i + 1;
    }
    assert(s@.take(cs@.len() as int) =~= s@);
    out
}

/// The ACES 1.x output transform that a normalized name selects.
fn aces1_output_exec(s: &Vec<char>) -> (r: Option<Aces1Output>)
    ensures
        r == aces1_output_of(s@),
{
    let video = has_infix_exec(s, "sdrvideo");
    if has_infix_exec(s, "hdr") {
        let peak: Option<u32> = if has_infix_exec(s, "1000nit") {
            Some(1000u32)
        } else if has_infix_exec(s, "2000nit") {
            Some(2000u32)
        } else if has_infix_exec(s, "4000nit") {
            Some(4000u32)
        } else if has_infix_exec(s, "108nit") {
            Some(108u32)
        } else {
            None
        };
        let limit = if has_infix_exec(s, "rec2020lim") {
            Some(Aces1Primaries::Rec2020)
        } else if has_infix_exec(s, "p3lim") {
            Some(Aces1Primaries::P3D65)
        } else {
            None
        };
        match (peak, limit) {
            (Some(p), Some(l)) => Some(Aces1Output::Hdr { peak_nits: p, limiting: l }),
            _ => None,
        }
    } else if has_infix_exec(s, "d60simd65") {
        Some(Aces1Output::SdrD60SimD65 { cinema: has_infix_exec(s, "sdrcinema"), video })
    } else if has_infix_exec(s, "d60simdci") {
        Some(Aces1Output::SdrD60SimDci)
    } else if has_infix_exec(s, "d65simdci") {
        Some(Aces1Output::SdrD65SimDci)
    } else if has_infix_exec(s, "rec709lim") {
        Some(Aces1Output::SdrLimited { video, limiting: Aces1Primaries::Rec709 })
    } else if has_infix_exec(s, "p3lim") {
        Some(Aces1Output::SdrLimited { video, limiting: Aces1Primaries::P3D65 })
    } else {
        Some(Aces1Output::Sdr { video })
    }
}

/// The built-in transform that a style name selects: the name is lower-cased
/// (Unicode), its `-`, `_` and spaces are dropped, and the result is looked up
/// among the named transforms and the ACES output transforms
/// (see `builtin_style_of`).
pub fn builtin_style(style: &str) -> (r: Option<BuiltinStyle>)
    ensures
        r == builtin_style_of(strip_separators(str_lower(style@))),
{
    let lower = to_lowercase(style);
    let key = strip_separators_exec(lower.as_str());
    let k = key.as_str();
    match named_style_a_exec(k) {
        Some(b) => Some(b),
        None => match named_style_b_exec(k) {
            Some(b) => Some(b),
            None => {
                let cs = chars_of(k);
                if has_prefix_exec(&cs, "acesoutput") && (has_infix_exec(&cs, "1.0") || has_infix_exec(&cs, "1.1")) {
                    match aces1_output_exec(&cs) {
                        Some(o) => Some(BuiltinStyle::AcesOutput1(o)),
                        None => None,
                    }
                } else if has_prefix_exec(&cs, "acesoutput") && has_infix_exec(&cs, "2.0") {
                    match aces2_output_exec(&cs) {
                        Some(o) => Some(BuiltinStyle::AcesOutput2(o)),
                        None => None,
                    }
                } else {
                    None
                }
            },
        },
    }
}

/// The ACES 2.0 output transform that a normalized name selects: the first
/// variant whose keyword the name holds (variants without a D60 white must not
/// mention `d60`).
pub open spec fn aces2_output_of(s: Seq<char>) -> Option<Aces2Output> {
    if has_infix(s, "sdr100nitrec709d60inrec709d65"@) {
        Some(Aces2Output { peak_nits: 100, limiting: Aces2Primaries::Rec709D60 })
    } else if has_infix(s, "sdr100nitrec709d60inp3d65"@) {
        Some(Aces2Output { peak_nits: 100, limiting: Aces2Primaries::Rec709D60 })
    } else if has_infix(s, "sdr100nitrec709d60inrec2020d65"@) {
        Some(Aces2Output { peak_nits: 100, limiting: Aces2Primaries::Rec709D60 })
    } else if has_infix(s, "sdr100nitp3d60inp3d65"@) {
        Some(Aces2Output { peak_nits: 100, limiting: Aces2Primaries::P3D60 })
    } else if has_infix(s, "sdr100nitp3d60inxyze"@) {
        Some(Aces2Output { peak_nits: 100, limiting: Aces2Primaries::P3D60 })
    } else if has_infix(s, "sdr100nitrec709"@) && !has_infix(s, "d60"@) {
        Some(Aces2Output { peak_nits: 100, limiting: Aces2Primaries::Rec709 })
    } else if has_infix(s, "sdr100nitp3d65"@) && !has_infix(s, "d60"@) {
        Some(Aces2Output { peak_nits: 100, limiting: Aces2Primaries::P3D65 })
    } else if has_infix(s, "hdr108nitp3d60inp3d65"@) {
        Some(Aces2Output { peak_nits: 108, limiting: Aces2Primaries::P3D60 })
    } else if has_infix(s, "hdr300nitp3d60inxyze"@) {
        Some(Aces2Output { peak_nits: 300, limiting: Aces2Primaries::P3D60 })
    } else if has_infix(s, "hdr500nitp3d60inp3d65"@) {
        Some(Aces2Output { peak_nits: 500, limiting: Aces2Primaries::P3D60 })
    } else if has_infix(s, "hdr1000nitp3d60inp3d65"@) {
        Some(Aces2Output { peak_nits: 1000, limiting: Aces2Primaries::P3D60 })
    } else if has_infix(s, "hdr2000nitp3d60inp3d65"@) {
        Some(Aces2Output { peak_nits: 2000, limiting: Aces2Primaries::P3D60 })
    } else if has_infix(s, "hdr4000nitp3d60inp3d65"@) {
        Some(Aces2Output { peak_nits: 4000, limiting: Aces2Primaries::P3D60 })
    } else if has_infix(s, "hdr500nitp3d60inrec2020d65"@) {
        Some(Aces2Output { peak_nits: 500, limiting: Aces2Primaries::P3D60 })
    } else if has_infix(s, "hdr1000nitp3d60inrec2020d65"@) {
        Some(Aces2Output { peak_nits: 1000, limiting: Aces2Primaries::P3D60 })
    } else if has_infix(s, "hdr2000nitp3d60inrec2020d65"@) {
        Some(Aces2Output { peak_nits: 2000, limiting: Aces2Primaries::P3D60 })
    } else if has_infix(s, "hdr4000nitp3d60inrec2020d65"@) {
        Some(Aces2Output { peak_nits: 4000, limiting: Aces2Primaries::P3D60 })
    } else if has_infix(s, "hdr500nitrec2020d60inrec2020d65"@) {
        Some(Aces2Output { peak_nits: 500, limiting: Aces2Primaries::Rec2020D60 })
    } else if has_infix(s, "hdr1000nitrec2020d60inrec2020d65"@) {
        Some(Aces2Output { peak_nits: 1000, limiting: Aces2Primaries::Rec2020D60 })
    } else if has_infix(s, "hdr2000nitrec2020d60inrec2020d65"@) {
        Some(Aces2Output { peak_nits: 2000, limiting: Aces2Primaries::Rec2020D60 })
    } else if has_infix(s, "hdr4000nitrec2020d60inrec2020d65"@) {
        Some(Aces2Output { peak_nits: 4000, limiting: Aces2Primaries::Rec2020D60 })
    } else if has_infix(s, "hdr108nitp3d65"@) && !has_infix(s, "d60"@) {
        Some(Aces2Output { peak_nits: 108, limiting: Aces2Primaries::P3D65 })
    } else if has_infix(s, "hdr300nitp3d65"@) && !has_infix(s, "d60"@) {
        Some(Aces2Output { peak_nits: 300, limiting: Aces2Primaries::P3D65 })
    } else if has_infix(s, "hdr500nitp3d65"@) && !has_infix(s, "d60"@) {
        Some(Aces2Output { peak_nits: 500, limiting: Aces2Primaries::P3D65 })
    } else if has_infix(s, "hdr1000nitp3d65"@) && !has_infix(s, "d60"@) {
        Some(Aces2Output { peak_nits: 1000, limiting: Aces2Primaries::P3D65 })
    } else if has_infix(s, "hdr2000nitp3d65"@) && !has_infix(s, "d60"@) {
        Some(Aces2Output { peak_nits: 2000, limiting: Aces2Primaries::P3D65 })
    } else if has_infix(s, "hdr4000nitp3d65"@) && !has_infix(s, "d60"@) {
        Some(Aces2Output { peak_nits: 4000, limiting: Aces2Primaries::P3D65 })
    } else if has_infix(s, "hdr500nitrec2020"@) && !has_infix(s, "d60"@) {
        Some(Aces2Output { peak_nits: 500, limiting: Aces2Primaries::Rec2020 })
    } else if has_infix(s, "hdr1000nitrec2020"@) && !has_infix(s, "d60"@) {
        Some(Aces2Output { peak_nits: 1000, limiting: Aces2Primaries::Rec2020 })
    } else if has_infix(s, "hdr2000nitrec2020"@) && !has_infix(s, "d60"@) {
        Some(Aces2Output { peak_nits: 2000, limiting: Aces2Primaries::Rec2020 })
    } else if has_infix(s, "hdr4000nitrec2020"@) && !has_infix(s, "d60"@) {
        Some(Aces2Output { peak_nits: 4000, limiting: Aces2Primaries::Rec2020 })
    } else {
        None
    }
}

/// The ACES 2.0 output transform that a normalized name selects.
fn aces2_output_exec(s: &Vec<char>) -> (r: Option<Aces2Output>)
    ensures
        r == aces2_output_of(s@),
{
    let d60 = has_infix_exec(s, "d60");
    if has_infix_exec(s, "sdr100nitrec709d60inrec709d65") {
        Some(Aces2Output { peak_nits: 100, limiting: Aces2Primaries::Rec709D60 })
    } else if has_infix_exec(s, "sdr100nitrec709d60inp3d65") {
        Some(Aces2Output { peak_nits: 100, limiting: Aces2Primaries::Rec709D60 })
    } else if has_infix_exec(s, "sdr100nitrec709d60inrec2020d65") {
        Some(Aces2Output { peak_nits: 100, limiting: Aces2Primaries::Rec709D60 })
    } else if has_infix_exec(s, "sdr100nitp3d60inp3d65") {
        Some(Aces2Output { peak_nits: 100, limiting: Aces2Primaries::P3D60 })
    } else if has_infix_exec(s, "sdr100nitp3d60inxyze") {
        Some(Aces2Output { peak_nits: 100, limiting: Aces2Primaries::P3D60 })
    } else if has_infix_exec(s, "sdr100nitrec709") && !d60 {
        Some(Aces2Output { peak_nits: 100, limiting: Aces2Primaries::Rec709 })
    } else if has_infix_exec(s, "sdr100nitp3d65") && !d60 {
        Some(Aces2Output { peak_nits: 100, limiting: Aces2Primaries::P3D65 })
    } else if has_infix_exec(s, "hdr108nitp3d60inp3d65") {
        Some(Aces2Output { peak_nits: 108, limiting: Aces2Primaries::P3D60 })
    } else if has_infix_exec(s, "hdr300nitp3d60inxyze") {
        Some(Aces2Output { peak_nits: 300, limiting: Aces2Primaries::P3D60 })
    } else if has_infix_exec(s, "hdr500nitp3d60inp3d65") {
        Some(Aces2Output { peak_nits: 500, limiting: Aces2Primaries::P3D60 })
    } else if has_infix_exec(s, "hdr1000nitp3d60inp3d65") {
        Some(Aces2Output { peak_nits: 1000, limiting: Aces2Primaries::P3D60 })
    } else if has_infix_exec(s, "hdr2000nitp3d60inp3d65") {
        Some(Aces2Output { peak_nits: 2000, limiting: Aces2Primaries::P3D60 })
    } else if has_infix_exec(s, "hdr4000nitp3d60inp3d65") {
        Some(Aces2Output { peak_nits: 4000, limiting: Aces2Primaries::P3D60 })
    } else if has_infix_exec(s, "hdr500nitp3d60inrec2020d65") {
        Some(Aces2Output { peak_nits: 500, limiting: Aces2Primaries::P3D60 })
    } else if has_infix_exec(s, "hdr1000nitp3d60inrec2020d65") {
        Some(Aces2Output { peak_nits: 1000, limiting: Aces2Primaries::P3D60 })
    } else if has_infix_exec(s, "hdr2000nitp3d60inrec2020d65") {
        Some(Aces2Output { peak_nits: 2000, limiting: Aces2Primaries::P3D60 })
    } else if has_infix_exec(s, "hdr4000nitp3d60inrec2020d65") {
        Some(Aces2Output { peak_nits: 4000, limiting: Aces2Primaries::P3D60 })
    } else if has_infix_exec(s, "hdr500nitrec2020d60inrec2020d65") {
        Some(Aces2Output { peak_nits: 500, limiting: Aces2Primaries::Rec2020D60 })
    } else if has_infix_exec(s, "hdr1000nitrec2020d60inrec2020d65") {
        Some(Aces2Output { peak_nits: 1000, limiting: Aces2Primaries::Rec2020D60 })
    } else if has_infix_exec(s, "hdr2000nitrec2020d60inrec2020d65") {
        Some(Aces2Output { peak_nits: 2000, limiting: Aces2Primaries::Rec2020D60 })
    } else if has_infix_exec(s, "hdr4000nitrec2020d60inrec2020d65") {
        Some(Aces2Output { peak_nits: 4000, limiting: Aces2Primaries::Rec2020D60 })
    } else if has_infix_exec(s, "hdr108nitp3d65") && !d60 {
        Some(Aces2Output { peak_nits: 108, limiting: Aces2Primaries::P3D65 })
    } else if has_infix_exec(s, "hdr300nitp3d65") && !d60 {
        Some(Aces2Output { peak_nits: 300, limiting: Aces2Primaries::P3D65 })
    } else if has_infix_exec(s, "hdr500nitp3d65") && !d60 {
        Some(Aces2Output { peak_nits: 500, limiting: Aces2Primaries::P3D65 })
    } else if has_infix_exec(s, "hdr1000nitp3d65") && !d60 {
        Some(Aces2Output { peak_nits: 1000, limiting: Aces2Primaries::P3D65 })
    } else if has_infix_exec(s, "hdr2000nitp3d65") && !d60 {
        Some(Aces2Output { peak_nits: 2000, limiting: Aces2Primaries::P3D65 })
    } else if has_infix_exec(s, "hdr4000nitp3d65") && !d60 {
        Some(Aces2Output { peak_nits: 4000, limiting: Aces2Primaries::P3D65 })
    } else if has_infix_exec(s, "hdr500nitrec2020") && !d60 {
        Some(Aces2Output { peak_nits: 500, limiting: Aces2Primaries::Rec2020 })
    } else if has_infix_exec(s, "hdr1000nitrec2020") && !d60 {
        Some(Aces2Output { peak_nits: 1000, limiting: Aces2Primaries::Rec2020 })
    } else if has_infix_exec(s, "hdr2000nitrec2020") && !d60 {
        Some(Aces2Output { peak_nits: 2000, limiting: Aces2Primaries::Rec2020 })
    } else if has_infix_exec(s, "hdr4000nitrec2020") && !d60 {
        Some(Aces2Output { peak_nits: 4000, limiting: Aces2Primaries::Rec2020 })
    } else {
        None
    }
}
/// The style that one of the first names selects.
fn named_style_a_exec(k: &str) -> (r: Option<BuiltinStyle>)
    ensures
        r == named_style_a(k@),
{
    if str_eq(k, "identity") {
        Some(BuiltinStyle::Identity)
    } else if str_eq(k, "acesap0toap1") || str_eq(k, "aces2065toacescg") {
        Some(BuiltinStyle::AcesAp0ToAp1)
    } else if str_eq(k, "acesap1toap0") || str_eq(k, "acescgtoaces2065") || str_eq(k, "acescgtoaces20651") {
        Some(BuiltinStyle::AcesAp1ToAp0)
    } else if str_eq(k, "acesap0toxyzd65bfd") || str_eq(k, "aces20651toxyzd65") {
        Some(BuiltinStyle::AcesAp0ToXyzD65Bfd)
    } else if str_eq(k, "acesap1toxyzd65bfd") || str_eq(k, "acescgtoxyzd65") {
        Some(BuiltinStyle::AcesAp1ToXyzD65Bfd)
    } else if str_eq(k, "acesccttoaces20651") || str_eq(k, "acesccttoaces2065") {
        Some(BuiltinStyle::AcesCctToAces20651)
    } else if str_eq(k, "acescctoaces20651") || str_eq(k, "acescctoaces2065") {
        Some(BuiltinStyle::AcesCcToAces20651)
    } else if str_eq(k, "arrilogc3toaces20651") || str_eq(k, "logc3toaces") || str_eq(k, "arrilogctoaces") {
        Some(BuiltinStyle::ArriLogC3ToAces20651)
    } else if str_eq(k, "arrilogc4toaces20651") || str_eq(k, "logc4toaces") {
        Some(BuiltinStyle::ArriLogC4ToAces20651)
    } else if str_eq(k, "sonyslog3sgamut3toaces20651") || str_eq(k, "slog3toaces") || str_eq(k, "sonyslog3toaces") {
        Some(BuiltinStyle::SonySLog3SGamut3ToAces20651)
    } else if str_eq(k, "panasonicvlogvgamuttoaces20651") || str_eq(k, "vlogtoaces") {
        Some(BuiltinStyle::PanasonicVLogVGamutToAces20651)
    } else if str_eq(k, "redlog3g10rwgtoaces20651") || str_eq(k, "log3g10toaces") || str_eq(k, "redlogtoaces") {
        Some(BuiltinStyle::RedLog3G10RwgToAces20651)
    } else if str_eq(k, "srgbtoxyzd65") || str_eq(k, "srgbtociexyz") {
        Some(BuiltinStyle::SrgbToXyzD65)
    } else if str_eq(k, "applelogtoaces20651") || str_eq(k, "applelogtoaces") {
        Some(BuiltinStyle::AppleLogToAces20651)
    } else if str_eq(k, "curveapplelogtolinear") {
        Some(BuiltinStyle::CurveAppleLogToLinear)
    } else if str_eq(k, "canonclog2cgamuttoaces20651") || str_eq(k, "clog2toaces") {
        Some(BuiltinStyle::CanonCLog2CGamutToAces20651)
    } else if str_eq(k, "curvecanonclog2tolinear") {
        Some(BuiltinStyle::CurveCanonCLog2ToLinear)
    } else if str_eq(k, "canonclog3cgamuttoaces20651") || str_eq(k, "clog3toaces") {
        Some(BuiltinStyle::CanonCLog3CGamutToAces20651)
    } else if str_eq(k, "curvecanonclog3tolinear") {
        Some(BuiltinStyle::CurveCanonCLog3ToLinear)
    } else if str_eq(k, "utilityacesap0tociexyzd65bfd") {
        Some(BuiltinStyle::UtilityAcesAp0ToCieXyzD65Bfd)
    } else if str_eq(k, "utilityacesap1tociexyzd65bfd") {
        Some(BuiltinStyle::UtilityAcesAp1ToCieXyzD65Bfd)
    } else if str_eq(k, "curveacescctlogtolin") || str_eq(k, "curveacescctlogtolinear") {
        Some(BuiltinStyle::CurveAcesCctLogToLinear)
    } else if str_eq(k, "displayciexyzd65torec.1886rec.709") || str_eq(k, "displayxyzd65torec1886rec709") {
        Some(BuiltinStyle::DisplayCieXyzD65ToRec1886Rec709)
    } else if str_eq(k, "displayciexyzd65torec.1886rec.2020") || str_eq(k, "displayxyzd65torec1886rec2020") {
        Some(BuiltinStyle::DisplayCieXyzD65ToRec1886Rec2020)
    } else if str_eq(k, "displayciexyzd65tosrgb") || str_eq(k, "displayxyzd65tosrgb") {
        Some(BuiltinStyle::DisplayCieXyzD65ToSrgb)
    } else if str_eq(k, "displayciexyzd65todisplayp3") {
        Some(BuiltinStyle::DisplayCieXyzD65ToDisplayP3)
    } else if str_eq(k, "displayciexyzd65torec.2100pq") || str_eq(k, "displayxyzd65topq") {
        Some(BuiltinStyle::DisplayCieXyzD65ToRec2100Pq)
    } else if str_eq(k, "displayciexyzd65torec.2100hlg1000nit") || str_eq(k, "displayxyzd65tohlg") {
        Some(BuiltinStyle::DisplayCieXyzD65ToRec2100Hlg1000Nit)
    } else {
        None
    }
}
/// The style that one of the other names selects.
fn named_style_b_exec(k: &str) -> (r: Option<BuiltinStyle>)
    ensures
        r == named_style_b(k@),
{
    if str_eq(k, "curvest2084tolinear") || str_eq(k, "curvepqtolinear") {
        Some(BuiltinStyle::CurveSt2084ToLinear)
    } else if str_eq(k, "curvelineartost2084") || str_eq(k, "curvelineartopq") {
        Some(BuiltinStyle::CurveLinearToSt2084)
    } else if str_eq(k, "curvehlgoetfinverse") || str_eq(k, "curvehlgtolinear") {
        Some(BuiltinStyle::CurveHlgOetfInverse)
    } else if str_eq(k, "curvehlgoetf") || str_eq(k, "curvelineartohlg") {
        Some(BuiltinStyle::CurveHlgOetf)
    } else if str_eq(k, "displayciexyzd65torec.1886rec.709mirrorneg") || str_eq(k, "displayciexyzd65torec.1886rec.709mirrornegs") {
        Some(BuiltinStyle::DisplayCieXyzD65ToRec1886Rec709MirrorNeg)
    } else if str_eq(k, "displayciexyzd65torec.1886rec.2020mirrorneg") || str_eq(k, "displayciexyzd65torec.1886rec.2020mirrornegs") {
        Some(BuiltinStyle::DisplayCieXyzD65ToRec1886Rec2020MirrorNeg)
    } else if str_eq(k, "displayciexyzd65tosrgbmirrorneg") || str_eq(k, "displayciexyzd65tosrgbmirrornegs") {
        Some(BuiltinStyle::DisplayCieXyzD65ToSrgbMirrorNeg)
    } else if str_eq(k, "displayciexyzd65tog2.6p3d65mirrorneg") || str_eq(k, "displayciexyzd65tog2.6p3d65mirrornegs") {
        Some(BuiltinStyle::DisplayCieXyzD65ToG26P3D65MirrorNeg)
    } else if str_eq(k, "displayciexyzd65tog2.2rec.709") || str_eq(k, "displayxyzd65tog2.2rec709") {
        Some(BuiltinStyle::DisplayCieXyzD65ToG22Rec709)
    } else if str_eq(k, "displayciexyzd65tog2.2rec.709mirrorneg") || str_eq(k, "displayciexyzd65tog2.2rec.709mirrornegs") {
        Some(BuiltinStyle::DisplayCieXyzD65ToG22Rec709MirrorNeg)
    } else if str_eq(k, "displayciexyzd65tog2.6p3dcibfd") {
        Some(BuiltinStyle::DisplayCieXyzD65ToG26P3DciBfd)
    } else if str_eq(k, "displayciexyzd65tog2.6p3d65") {
        Some(BuiltinStyle::DisplayCieXyzD65ToG26P3D65)
    } else if str_eq(k, "displayciexyzd65tog2.6p3d60bfd") {
        Some(BuiltinStyle::DisplayCieXyzD65ToG26P3D60Bfd)
    } else if str_eq(k, "displayciexyzd65todcdmd65") {
        Some(BuiltinStyle::DisplayCieXyzD65ToDcdmD65)
    } else if str_eq(k, "displayciexyzd65todisplayp3hdr") {
        Some(BuiltinStyle::DisplayCieXyzD65ToDisplayP3Hdr)
    } else if str_eq(k, "displayciexyzd65tost2084p3d65") {
        Some(BuiltinStyle::DisplayCieXyzD65ToSt2084P3D65)
    } else if str_eq(k, "displayciexyzd65tost2084dcdmd65") {
        Some(BuiltinStyle::DisplayCieXyzD65ToSt2084DcdmD65)
    } else if str_eq(k, "sonyslog3sgamut3.cinetoaces20651") || str_eq(k, "slog3cinetoaces") {
        Some(BuiltinStyle::SonySLog3SGamut3CineToAces20651)
    } else if str_eq(k, "sonyslog3sgamut3venicetoaces20651") {
        Some(BuiltinStyle::SonySLog3SGamut3VeniceToAces20651)
    } else if str_eq(k, "sonyslog3sgamut3.cinevenicetoaces20651") {
        Some(BuiltinStyle::SonySLog3SGamut3CineVeniceToAces20651)
    } else if str_eq(k, "redredlogfilmrwgtoaces20651") || str_eq(k, "redlogfilmtoaces") {
        Some(BuiltinStyle::RedRedLogFilmRwgToAces20651)
    } else if str_eq(k, "arrialexa") || str_eq(k, "arrialexalogcei800awgtoaces20651") {
        Some(BuiltinStyle::ArriAlexaLogCEi800AwgToAces20651)
    } else if str_eq(k, "utilityacesap1tolinearrec709bfd") {
        Some(BuiltinStyle::UtilityAcesAp1ToLinearRec709Bfd)
    } else if str_eq(k, "acesproxy10itoaces20651") || str_eq(k, "acesproxy10toaces") {
        Some(BuiltinStyle::AcesProxy10iToAces20651)
    } else if str_eq(k, "adx10toaces20651") || str_eq(k, "adx10toaces") {
        Some(BuiltinStyle::Adx10ToAces20651)
    } else if str_eq(k, "adx16toaces20651") || str_eq(k, "adx16toaces") {
        Some(BuiltinStyle::Adx16ToAces20651)
    } else if str_eq(k, "aceslmtbluelightartifactfix") {
        Some(BuiltinStyle::AcesLmtBlueLightArtifactFix)
    } else if str_eq(k, "aceslmtaces1.3referencegamutcompression") || str_eq(k, "aceslmtaces13referencegamutcompression") {
        Some(BuiltinStyle::AcesLmtAces13ReferenceGamutCompression)
    } else {
        None
    }
}
} // verus!
verus! {

/// The name by which each named built-in transform is known; `None` for
/// the ACES output transforms, which are known by families of names.
pub open spec fn canonical_style_name(b: BuiltinStyle) -> Option<Seq<char>> {
    match b {
        BuiltinStyle::Identity => Some("identity"@),
        BuiltinStyle::AcesAp0ToAp1 => Some("acesap0toap1"@),
        BuiltinStyle::AcesAp1ToAp0 => Some("acesap1toap0"@),
        BuiltinStyle::AcesAp0ToXyzD65Bfd => Some("acesap0toxyzd65bfd"@),
        BuiltinStyle::AcesAp1ToXyzD65Bfd => Some("acesap1toxyzd65bfd"@),
        BuiltinStyle::AcesCctToAces20651 => Some("acesccttoaces20651"@),
        BuiltinStyle::AcesCcToAces20651 => Some("acescctoaces20651"@),
        BuiltinStyle::ArriLogC3ToAces20651 => Some("arrilogc3toaces20651"@),
        BuiltinStyle::ArriLogC4ToAces20651 => Some("arrilogc4toaces20651"@),
        BuiltinStyle::SonySLog3SGamut3ToAces20651 => Some("sonyslog3sgamut3toaces20651"@),
        BuiltinStyle::PanasonicVLogVGamutToAces20651 => Some("panasonicvlogvgamuttoaces20651"@),
        BuiltinStyle::RedLog3G10RwgToAces20651 => Some("redlog3g10rwgtoaces20651"@),
        BuiltinStyle::SrgbToXyzD65 => Some("srgbtoxyzd65"@),
        BuiltinStyle::AppleLogToAces20651 => Some("applelogtoaces20651"@),
        BuiltinStyle::CurveAppleLogToLinear => Some("curveapplelogtolinear"@),
        BuiltinStyle::CanonCLog2CGamutToAces20651 => Some("canonclog2cgamuttoaces20651"@),
        BuiltinStyle::CurveCanonCLog2ToLinear => Some("curvecanonclog2tolinear"@),
        BuiltinStyle::CanonCLog3CGamutToAces20651 => Some("canonclog3cgamuttoaces20651"@),
        BuiltinStyle::CurveCanonCLog3ToLinear => Some("curvecanonclog3tolinear"@),
        BuiltinStyle::UtilityAcesAp0ToCieXyzD65Bfd => Some("utilityacesap0tociexyzd65bfd"@),
        BuiltinStyle::UtilityAcesAp1ToCieXyzD65Bfd => Some("utilityacesap1tociexyzd65bfd"@),
        BuiltinStyle::CurveAcesCctLogToLinear => Some("curveacescctlogtolin"@),
        BuiltinStyle::DisplayCieXyzD65ToRec1886Rec709 => Some("displayciexyzd65torec.1886rec.709"@),
        BuiltinStyle::DisplayCieXyzD65ToRec1886Rec2020 => Some("displayciexyzd65torec.1886rec.2020"@),
        BuiltinStyle::DisplayCieXyzD65ToSrgb => Some("displayciexyzd65tosrgb"@),
        BuiltinStyle::DisplayCieXyzD65ToDisplayP3 => Some("displayciexyzd65todisplayp3"@),
        BuiltinStyle::DisplayCieXyzD65ToRec2100Pq => Some("displayciexyzd65torec.2100pq"@),
        BuiltinStyle::DisplayCieXyzD65ToRec2100Hlg1000Nit => Some("displayciexyzd65torec.2100hlg1000nit"@),
        BuiltinStyle::CurveSt2084ToLinear => Some("curvest2084tolinear"@),
        BuiltinStyle::CurveLinearToSt2084 => Some("curvelineartost2084"@),
        BuiltinStyle::CurveHlgOetfInverse => Some("curvehlgoetfinverse"@),
        BuiltinStyle::CurveHlgOetf => Some("curvehlgoetf"@),
        BuiltinStyle::DisplayCieXyzD65ToRec1886Rec709MirrorNeg => Some("displayciexyzd65torec.1886rec.709mirrorneg"@),
        BuiltinStyle::DisplayCieXyzD65ToRec1886Rec2020MirrorNeg => Some("displayciexyzd65torec.1886rec.2020mirrorneg"@),
        BuiltinStyle::DisplayCieXyzD65ToSrgbMirrorNeg => Some("displayciexyzd65tosrgbmirrorneg"@),
        BuiltinStyle::DisplayCieXyzD65ToG26P3D65MirrorNeg => Some("displayciexyzd65tog2.6p3d65mirrorneg"@),
        BuiltinStyle::DisplayCieXyzD65ToG22Rec709 => Some("displayciexyzd65tog2.2rec.709"@),
        BuiltinStyle::DisplayCieXyzD65ToG22Rec709MirrorNeg => Some("displayciexyzd65tog2.2rec.709mirrorneg"@),
        BuiltinStyle::DisplayCieXyzD65ToG26P3DciBfd => Some("displayciexyzd65tog2.6p3dcibfd"@),
        BuiltinStyle::DisplayCieXyzD65ToG26P3D65 => Some("displayciexyzd65tog2.6p3d65"@),
        BuiltinStyle::DisplayCieXyzD65ToG26P3D60Bfd => Some("displayciexyzd65tog2.6p3d60bfd"@),
        BuiltinStyle::DisplayCieXyzD65ToDcdmD65 => Some("displayciexyzd65todcdmd65"@),
        BuiltinStyle::DisplayCieXyzD65ToDisplayP3Hdr => Some("displayciexyzd65todisplayp3hdr"@),
        BuiltinStyle::DisplayCieXyzD65ToSt2084P3D65 => Some("displayciexyzd65tost2084p3d65"@),
        BuiltinStyle::DisplayCieXyzD65ToSt2084DcdmD65 => Some("displayciexyzd65tost2084dcdmd65"@),
        BuiltinStyle::SonySLog3SGamut3CineToAces20651 => Some("sonyslog3sgamut3.cinetoaces20651"@),
        BuiltinStyle::SonySLog3SGamut3VeniceToAces20651 => Some("sonyslog3sgamut3venicetoaces20651"@),
        BuiltinStyle::SonySLog3SGamut3CineVeniceToAces20651 => Some("sonyslog3sgamut3.cinevenicetoaces20651"@),
        BuiltinStyle::RedRedLogFilmRwgToAces20651 => Some("redredlogfilmrwgtoaces20651"@),
        BuiltinStyle::ArriAlexaLogCEi800AwgToAces20651 => Some("arrialexa"@),
        BuiltinStyle::UtilityAcesAp1ToLinearRec709Bfd => Some("utilityacesap1tolinearrec709bfd"@),
        BuiltinStyle::AcesProxy10iToAces20651 => Some("acesproxy10itoaces20651"@),
        BuiltinStyle::Adx10ToAces20651 => Some("adx10toaces20651"@),
        BuiltinStyle::Adx16ToAces20651 => Some("adx16toaces20651"@),
        BuiltinStyle::AcesLmtBlueLightArtifactFix => Some("aceslmtbluelightartifactfix"@),
        BuiltinStyle::AcesLmtAces13ReferenceGamutCompression => Some("aceslmtaces1.3referencegamutcompression"@),
        BuiltinStyle::AcesOutput1(_) => None,
        BuiltinStyle::AcesOutput2(_) => None,
    }
}

/// What each name of `canonical_style_name` selects.
#[verifier::rlimit(100)]
#[verifier::spinoff_prover]
proof fn lemma_canonical_names()
    ensures
        builtin_style_of("identity"@) == Some(BuiltinStyle::Identity),
        builtin_style_of("acesap0toap1"@) == Some(BuiltinStyle::AcesAp0ToAp1),
        builtin_style_of("acesap1toap0"@) == Some(BuiltinStyle::AcesAp1ToAp0),
        builtin_style_of("acesap0toxyzd65bfd"@) == Some(BuiltinStyle::AcesAp0ToXyzD65Bfd),
        builtin_style_of("acesap1toxyzd65bfd"@) == Some(BuiltinStyle::AcesAp1ToXyzD65Bfd),
        builtin_style_of("acesccttoaces20651"@) == Some(BuiltinStyle::AcesCctToAces20651),
        builtin_style_of("acescctoaces20651"@) == Some(BuiltinStyle::AcesCcToAces20651),
        builtin_style_of("arrilogc3toaces20651"@) == Some(BuiltinStyle::ArriLogC3ToAces20651),
        builtin_style_of("arrilogc4toaces20651"@) == Some(BuiltinStyle::ArriLogC4ToAces20651),
        builtin_style_of("sonyslog3sgamut3toaces20651"@) == Some(BuiltinStyle::SonySLog3SGamut3ToAces20651),
        builtin_style_of("panasonicvlogvgamuttoaces20651"@) == Some(BuiltinStyle::PanasonicVLogVGamutToAces20651),
        builtin_style_of("redlog3g10rwgtoaces20651"@) == Some(BuiltinStyle::RedLog3G10RwgToAces20651),
        builtin_style_of("srgbtoxyzd65"@) == Some(BuiltinStyle::SrgbToXyzD65),
        builtin_style_of("applelogtoaces20651"@) == Some(BuiltinStyle::AppleLogToAces20651),
        builtin_style_of("curveapplelogtolinear"@) == Some(BuiltinStyle::CurveAppleLogToLinear),
        builtin_style_of("canonclog2cgamuttoaces20651"@) == Some(BuiltinStyle::CanonCLog2CGamutToAces20651),
        builtin_style_of("curvecanonclog2tolinear"@) == Some(BuiltinStyle::CurveCanonCLog2ToLinear),
        builtin_style_of("canonclog3cgamuttoaces20651"@) == Some(BuiltinStyle::CanonCLog3CGamutToAces20651),
        builtin_style_of("curvecanonclog3tolinear"@) == Some(BuiltinStyle::CurveCanonCLog3ToLinear),
        builtin_style_of("utilityacesap0tociexyzd65bfd"@) == Some(BuiltinStyle::UtilityAcesAp0ToCieXyzD65Bfd),
        builtin_style_of("utilityacesap1tociexyzd65bfd"@) == Some(BuiltinStyle::UtilityAcesAp1ToCieXyzD65Bfd),
        builtin_style_of("curveacescctlogtolin"@) == Some(BuiltinStyle::CurveAcesCctLogToLinear),
        builtin_style_of("displayciexyzd65torec.1886rec.709"@) == Some(BuiltinStyle::DisplayCieXyzD65ToRec1886Rec709),
        builtin_style_of("displayciexyzd65torec.1886rec.2020"@) == Some(BuiltinStyle::DisplayCieXyzD65ToRec1886Rec2020),
        builtin_style_of("displayciexyzd65tosrgb"@) == Some(BuiltinStyle::DisplayCieXyzD65ToSrgb),
        builtin_style_of("displayciexyzd65todisplayp3"@) == Some(BuiltinStyle::DisplayCieXyzD65ToDisplayP3),
        builtin_style_of("displayciexyzd65torec.2100pq"@) == Some(BuiltinStyle::DisplayCieXyzD65ToRec2100Pq),
        builtin_style_of("displayciexyzd65torec.2100hlg1000nit"@) == Some(BuiltinStyle::DisplayCieXyzD65ToRec2100Hlg1000Nit),
        builtin_style_of("curvest2084tolinear"@) == Some(BuiltinStyle::CurveSt2084ToLinear),
        builtin_style_of("curvelineartost2084"@) == Some(BuiltinStyle::CurveLinearToSt2084),
        builtin_style_of("curvehlgoetfinverse"@) == Some(BuiltinStyle::CurveHlgOetfInverse),
        builtin_style_of("curvehlgoetf"@) == Some(BuiltinStyle::CurveHlgOetf),
        builtin_style_of("displayciexyzd65torec.1886rec.709mirrorneg"@) == Some(BuiltinStyle::DisplayCieXyzD65ToRec1886Rec709MirrorNeg),
        builtin_style_of("displayciexyzd65torec.1886rec.2020mirrorneg"@) == Some(BuiltinStyle::DisplayCieXyzD65ToRec1886Rec2020MirrorNeg),
        builtin_style_of("displayciexyzd65tosrgbmirrorneg"@) == Some(BuiltinStyle::DisplayCieXyzD65ToSrgbMirrorNeg),
        builtin_style_of("displayciexyzd65tog2.6p3d65mirrorneg"@) == Some(BuiltinStyle::DisplayCieXyzD65ToG26P3D65MirrorNeg),
        builtin_style_of("displayciexyzd65tog2.2rec.709"@) == Some(BuiltinStyle::DisplayCieXyzD65ToG22Rec709),
        builtin_style_of("displayciexyzd65tog2.2rec.709mirrorneg"@) == Some(BuiltinStyle::DisplayCieXyzD65ToG22Rec709MirrorNeg),
        builtin_style_of("displayciexyzd65tog2.6p3dcibfd"@) == Some(BuiltinStyle::DisplayCieXyzD65ToG26P3DciBfd),
        builtin_style_of("displayciexyzd65tog2.6p3d65"@) == Some(BuiltinStyle::DisplayCieXyzD65ToG26P3D65),
        builtin_style_of("displayciexyzd65tog2.6p3d60bfd"@) == Some(BuiltinStyle::DisplayCieXyzD65ToG26P3D60Bfd),
        builtin_style_of("displayciexyzd65todcdmd65"@) == Some(BuiltinStyle::DisplayCieXyzD65ToDcdmD65),
        builtin_style_of("displayciexyzd65todisplayp3hdr"@) == Some(BuiltinStyle::DisplayCieXyzD65ToDisplayP3Hdr),
        builtin_style_of("displayciexyzd65tost2084p3d65"@) == Some(BuiltinStyle::DisplayCieXyzD65ToSt2084P3D65),
        builtin_style_of("displayciexyzd65tost2084dcdmd65"@) == Some(BuiltinStyle::DisplayCieXyzD65ToSt2084DcdmD65),
        builtin_style_of("sonyslog3sgamut3.cinetoaces20651"@) == Some(BuiltinStyle::SonySLog3SGamut3CineToAces20651),
        builtin_style_of("sonyslog3sgamut3venicetoaces20651"@) == Some(BuiltinStyle::SonySLog3SGamut3VeniceToAces20651),
        builtin_style_of("sonyslog3sgamut3.cinevenicetoaces20651"@) == Some(BuiltinStyle::SonySLog3SGamut3CineVeniceToAces20651),
        builtin_style_of("redredlogfilmrwgtoaces20651"@) == Some(BuiltinStyle::RedRedLogFilmRwgToAces20651),
        builtin_style_of("arrialexa"@) == Some(BuiltinStyle::ArriAlexaLogCEi800AwgToAces20651),
        builtin_style_of("utilityacesap1tolinearrec709bfd"@) == Some(BuiltinStyle::UtilityAcesAp1ToLinearRec709Bfd),
        builtin_style_of("acesproxy10itoaces20651"@) == Some(BuiltinStyle::AcesProxy10iToAces20651),
        builtin_style_of("adx10toaces20651"@) == Some(BuiltinStyle::Adx10ToAces20651),
        builtin_style_of("adx16toaces20651"@) == Some(BuiltinStyle::Adx16ToAces20651),
        builtin_style_of("aceslmtbluelightartifactfix"@) == Some(BuiltinStyle::AcesLmtBlueLightArtifactFix),
        builtin_style_of("aceslmtaces1.3referencegamutcompression"@) == Some(BuiltinStyle::AcesLmtAces13ReferenceGamutCompression),
{
    reveal_strlit("identity");
    reveal_strlit("acesap0toap1");
    reveal_strlit("acesap1toap0");
    reveal_strlit("aces2065toacescg");
    reveal_strlit("acesap0toxyzd65bfd");
    reveal_strlit("acescgtoaces2065");
    reveal_strlit("acescgtoaces20651");
    reveal_strlit("acesap1toxyzd65bfd");
    reveal_strlit("aces20651toxyzd65");
    reveal_strlit("acesccttoaces20651");
    reveal_strlit("acescgtoxyzd65");
    reveal_strlit("acescctoaces20651");
    reveal_strlit("acesccttoaces2065");
    reveal_strlit("arrilogc3toaces20651");
    reveal_strlit("acescctoaces2065");
    reveal_strlit("arrilogc4toaces20651");
    reveal_strlit("logc3toaces");
    reveal_strlit("arrilogctoaces");
    reveal_strlit("sonyslog3sgamut3toaces20651");
    reveal_strlit("logc4toaces");
    reveal_strlit("panasonicvlogvgamuttoaces20651");
    reveal_strlit("slog3toaces");
    reveal_strlit("sonyslog3toaces");
    reveal_strlit("redlog3g10rwgtoaces20651");
    reveal_strlit("vlogtoaces");
    reveal_strlit("srgbtoxyzd65");
    reveal_strlit("log3g10toaces");
    reveal_strlit("redlogtoaces");
    reveal_strlit("applelogtoaces20651");
    reveal_strlit("srgbtociexyz");
    reveal_strlit("curveapplelogtolinear");
    reveal_strlit("applelogtoaces");
    reveal_strlit("canonclog2cgamuttoaces20651");
    reveal_strlit("curvecanonclog2tolinear");
    reveal_strlit("clog2toaces");
    reveal_strlit("canonclog3cgamuttoaces20651");
    reveal_strlit("curvecanonclog3tolinear");
    reveal_strlit("clog3toaces");
    reveal_strlit("utilityacesap0tociexyzd65bfd");
    reveal_strlit("utilityacesap1tociexyzd65bfd");
    reveal_strlit("curveacescctlogtolin");
    reveal_strlit("displayciexyzd65torec.1886rec.709");
    reveal_strlit("curveacescctlogtolinear");
    reveal_strlit("displayciexyzd65torec.1886rec.2020");
    reveal_strlit("displayxyzd65torec1886rec709");
    reveal_strlit("displayciexyzd65tosrgb");
    reveal_strlit("displayxyzd65torec1886rec2020");
    reveal_strlit("displayciexyzd65todisplayp3");
    reveal_strlit("displayxyzd65tosrgb");
    reveal_strlit("displayciexyzd65torec.2100pq");
    reveal_strlit("displayciexyzd65torec.2100hlg1000nit");
    reveal_strlit("displayxyzd65topq");
    reveal_strlit("curvest2084tolinear");
    reveal_strlit("displayxyzd65tohlg");
    reveal_strlit("curvelineartost2084");
    reveal_strlit("curvepqtolinear");
    reveal_strlit("curvehlgoetfinverse");
    reveal_strlit("curvelineartopq");
    reveal_strlit("curvehlgoetf");
    reveal_strlit("curvehlgtolinear");
    reveal_strlit("displayciexyzd65torec.1886rec.709mirrorneg");
    reveal_strlit("curvelineartohlg");
    reveal_strlit("displayciexyzd65torec.1886rec.2020mirrorneg");
    reveal_strlit("displayciexyzd65torec.1886rec.709mirrornegs");
    reveal_strlit("displayciexyzd65tosrgbmirrorneg");
    reveal_strlit("displayciexyzd65torec.1886rec.2020mirrornegs");
    reveal_strlit("displayciexyzd65tog2.6p3d65mirrorneg");
    reveal_strlit("displayciexyzd65tosrgbmirrornegs");
    reveal_strlit("displayciexyzd65tog2.2rec.709");
    reveal_strlit("displayciexyzd65tog2.6p3d65mirrornegs");
    reveal_strlit("displayciexyzd65tog2.2rec.709mirrorneg");
    reveal_strlit("displayxyzd65tog2.2rec709");
    reveal_strlit("displayciexyzd65tog2.6p3dcibfd");
    reveal_strlit("displayciexyzd65tog2.2rec.709mirrornegs");
    reveal_strlit("displayciexyzd65tog2.6p3d65");
    reveal_strlit("displayciexyzd65tog2.6p3d60bfd");
    reveal_strlit("displayciexyzd65todcdmd65");
    reveal_strlit("displayciexyzd65todisplayp3hdr");
    reveal_strlit("displayciexyzd65tost2084p3d65");
    reveal_strlit("displayciexyzd65tost2084dcdmd65");
    reveal_strlit("sonyslog3sgamut3.cinetoaces20651");
    reveal_strlit("sonyslog3sgamut3venicetoaces20651");
    reveal_strlit("slog3cinetoaces");
    reveal_strlit("sonyslog3sgamut3.cinevenicetoaces20651");
    reveal_strlit("redredlogfilmrwgtoaces20651");
    reveal_strlit("arrialexa");
    reveal_strlit("redlogfilmtoaces");
    reveal_strlit("utilityacesap1tolinearrec709bfd");
    reveal_strlit("arrialexalogcei800awgtoaces20651");
    reveal_strlit("acesproxy10itoaces20651");
    reveal_strlit("adx10toaces20651");
    reveal_strlit("acesproxy10toaces");
    reveal_strlit("adx16toaces20651");
    reveal_strlit("adx10toaces");
    reveal_strlit("aceslmtbluelightartifactfix");
    reveal_strlit("adx16toaces");
    reveal_strlit("aceslmtaces1.3referencegamutcompression");
    assert("acesap0toap1"@[6] == '0' && "acesap1toap0"@[6] == '1');
    assert("acesap0toxyzd65bfd"@[6] == '0' && "acesap1toxyzd65bfd"@[6] == '1');
    assert("acesap0toxyzd65bfd"@[4] == 'a' && "acesccttoaces20651"@[4] == 'c');
    assert("acesap1toxyzd65bfd"@[4] == 'a' && "acesccttoaces20651"@[4] == 'c');
    assert("acescgtoaces20651"@[5] == 'g' && "acescctoaces20651"@[5] == 'c');
    assert("aces20651toxyzd65"@[4] == '2' && "acescctoaces20651"@[4] == 'c');
    assert("acesccttoaces2065"@[7] == 't' && "acescctoaces20651"@[7] == 'o');
    assert("arrilogc3toaces20651"@[8] == '3' && "arrilogc4toaces20651"@[8] == '4');
    assert("acesap0toap1"@[0] == 'a' && "srgbtoxyzd65"@[0] == 's');
    assert("acesap1toap0"@[0] == 'a' && "srgbtoxyzd65"@[0] == 's');
    assert("redlogtoaces"@[0] == 'r' && "srgbtoxyzd65"@[0] == 's');
    assert("sonyslog3sgamut3toaces20651"@[0] == 's' && "canonclog2cgamuttoaces20651"@[0] == 'c');
    assert("sonyslog3sgamut3toaces20651"@[0] == 's' && "canonclog3cgamuttoaces20651"@[0] == 'c');
    assert("canonclog2cgamuttoaces20651"@[9] == '2' && "canonclog3cgamuttoaces20651"@[9] == '3');
    assert("curvecanonclog2tolinear"@[14] == '2' && "curvecanonclog3tolinear"@[14] == '3');
    assert("utilityacesap0tociexyzd65bfd"@[13] == '0' && "utilityacesap1tociexyzd65bfd"@[13] == '1');
    assert("arrilogc3toaces20651"@[0] == 'a' && "curveacescctlogtolin"@[0] == 'c');
    assert("arrilogc4toaces20651"@[0] == 'a' && "curveacescctlogtolin"@[0] == 'c');
    assert("sonyslog3sgamut3toaces20651"@[0] == 's' && "displayciexyzd65todisplayp3"@[0] == 'd');
    assert("canonclog2cgamuttoaces20651"@[0] == 'c' && "displayciexyzd65todisplayp3"@[0] == 'd');
    assert("canonclog3cgamuttoaces20651"@[0] == 'c' && "displayciexyzd65todisplayp3"@[0] == 'd');
    assert("utilityacesap0tociexyzd65bfd"@[0] == 'u' && "displayciexyzd65torec.2100pq"@[0] == 'd');
    assert("utilityacesap1tociexyzd65bfd"@[0] == 'u' && "displayciexyzd65torec.2100pq"@[0] == 'd');
    assert("displayxyzd65torec1886rec709"@[7] == 'x' && "displayciexyzd65torec.2100pq"@[7] == 'c');
    assert("applelogtoaces20651"@[0] == 'a' && "curvest2084tolinear"@[0] == 'c');
    assert("displayxyzd65tosrgb"@[0] == 'd' && "curvest2084tolinear"@[0] == 'c');
    assert("applelogtoaces20651"@[0] == 'a' && "curvelineartost2084"@[0] == 'c');
    assert("displayxyzd65tosrgb"@[0] == 'd' && "curvelineartost2084"@[0] == 'c');
    assert("curvest2084tolinear"@[5] == 's' && "curvelineartost2084"@[5] == 'l');
    assert("applelogtoaces20651"@[0] == 'a' && "curvehlgoetfinverse"@[0] == 'c');
    assert("displayxyzd65tosrgb"@[0] == 'd' && "curvehlgoetfinverse"@[0] == 'c');
    assert("curvest2084tolinear"@[5] == 's' && "curvehlgoetfinverse"@[5] == 'h');
    assert("curvelineartost2084"@[5] == 'l' && "curvehlgoetfinverse"@[5] == 'h');
    assert("acesap0toap1"@[0] == 'a' && "curvehlgoetf"@[0] == 'c');
    assert("acesap1toap0"@[0] == 'a' && "curvehlgoetf"@[0] == 'c');
    assert("redlogtoaces"@[0] == 'r' && "curvehlgoetf"@[0] == 'c');
    assert("srgbtoxyzd65"@[0] == 's' && "curvehlgoetf"@[0] == 'c');
    assert("srgbtociexyz"@[0] == 's' && "curvehlgoetf"@[0] == 'c');
    assert("displayciexyzd65torec.1886rec.709mirrornegs"@[30] == '7' && "displayciexyzd65torec.1886rec.2020mirrorneg"@[30] == '2');
    assert("displayciexyzd65torec.2100hlg1000nit"@[18] == 'r' && "displayciexyzd65tog2.6p3d65mirrorneg"@[18] == 'g');
    assert("displayxyzd65torec1886rec2020"@[7] == 'x' && "displayciexyzd65tog2.2rec.709"@[7] == 'c');
    assert("panasonicvlogvgamuttoaces20651"@[0] == 'p' && "displayciexyzd65tog2.6p3dcibfd"@[0] == 'd');
    assert("sonyslog3sgamut3toaces20651"@[0] == 's' && "displayciexyzd65tog2.6p3d65"@[0] == 'd');
    assert("canonclog2cgamuttoaces20651"@[0] == 'c' && "displayciexyzd65tog2.6p3d65"@[0] == 'd');
    assert("canonclog3cgamuttoaces20651"@[0] == 'c' && "displayciexyzd65tog2.6p3d65"@[0] == 'd');
    assert("displayciexyzd65todisplayp3"@[18] == 'd' && "displayciexyzd65tog2.6p3d65"@[18] == 'g');
    assert("panasonicvlogvgamuttoaces20651"@[0] == 'p' && "displayciexyzd65tog2.6p3d60bfd"@[0] == 'd');
    assert("displayciexyzd65tog2.6p3dcibfd"@[25] == 'c' && "displayciexyzd65tog2.6p3d60bfd"@[25] == '6');
    assert("displayxyzd65tog2.2rec709"@[7] == 'x' && "displayciexyzd65todcdmd65"@[7] == 'c');
    assert("panasonicvlogvgamuttoaces20651"@[0] == 'p' && "displayciexyzd65todisplayp3hdr"@[0] == 'd');
    assert("displayciexyzd65tog2.6p3dcibfd"@[18] == 'g' && "displayciexyzd65todisplayp3hdr"@[18] == 'd');
    assert("displayciexyzd65tog2.6p3d60bfd"@[18] == 'g' && "displayciexyzd65todisplayp3hdr"@[18] == 'd');
    assert("displayxyzd65torec1886rec2020"@[7] == 'x' && "displayciexyzd65tost2084p3d65"@[7] == 'c');
    assert("displayciexyzd65tog2.2rec.709"@[18] == 'g' && "displayciexyzd65tost2084p3d65"@[18] == 's');
    assert("displayciexyzd65tosrgbmirrorneg"@[19] == 'r' && "displayciexyzd65tost2084dcdmd65"@[19] == 't');
    assert("displayciexyzd65tosrgbmirrornegs"@[0] == 'd' && "sonyslog3sgamut3.cinetoaces20651"@[0] == 's');
    assert("displayciexyzd65torec.1886rec.709"@[0] == 'd' && "sonyslog3sgamut3venicetoaces20651"@[0] == 's');
    assert("displayciexyzd65tog2.2rec.709mirrorneg"@[0] == 'd' && "sonyslog3sgamut3.cinevenicetoaces20651"@[0] == 's');
    assert("sonyslog3sgamut3toaces20651"@[0] == 's' && "redredlogfilmrwgtoaces20651"@[0] == 'r');
    assert("canonclog2cgamuttoaces20651"@[0] == 'c' && "redredlogfilmrwgtoaces20651"@[0] == 'r');
    assert("canonclog3cgamuttoaces20651"@[0] == 'c' && "redredlogfilmrwgtoaces20651"@[0] == 'r');
    assert("displayciexyzd65todisplayp3"@[0] == 'd' && "redredlogfilmrwgtoaces20651"@[0] == 'r');
    assert("displayciexyzd65tog2.6p3d65"@[0] == 'd' && "redredlogfilmrwgtoaces20651"@[0] == 'r');
    assert("displayciexyzd65tosrgbmirrorneg"@[0] == 'd' && "utilityacesap1tolinearrec709bfd"@[0] == 'u');
    assert("displayciexyzd65tost2084dcdmd65"@[0] == 'd' && "utilityacesap1tolinearrec709bfd"@[0] == 'u');
    assert("curvecanonclog2tolinear"@[0] == 'c' && "acesproxy10itoaces20651"@[0] == 'a');
    assert("curvecanonclog3tolinear"@[0] == 'c' && "acesproxy10itoaces20651"@[0] == 'a');
    assert("curveacescctlogtolinear"@[0] == 'c' && "acesproxy10itoaces20651"@[0] == 'a');
    assert("aces2065toacescg"@[1] == 'c' && "adx10toaces20651"@[1] == 'd');
    assert("acescgtoaces2065"@[1] == 'c' && "adx10toaces20651"@[1] == 'd');
    assert("acescctoaces2065"@[1] == 'c' && "adx10toaces20651"@[1] == 'd');
    assert("curvehlgtolinear"@[0] == 'c' && "adx10toaces20651"@[0] == 'a');
    assert("curvelineartohlg"@[0] == 'c' && "adx10toaces20651"@[0] == 'a');
    assert("redlogfilmtoaces"@[0] == 'r' && "adx10toaces20651"@[0] == 'a');
    assert("aces2065toacescg"@[1] == 'c' && "adx16toaces20651"@[1] == 'd');
    assert("acescgtoaces2065"@[1] == 'c' && "adx16toaces20651"@[1] == 'd');
    assert("acescctoaces2065"@[1] == 'c' && "adx16toaces20651"@[1] == 'd');
    assert("curvehlgtolinear"@[0] == 'c' && "adx16toaces20651"@[0] == 'a');
    assert("curvelineartohlg"@[0] == 'c' && "adx16toaces20651"@[0] == 'a');
    assert("redlogfilmtoaces"@[0] == 'r' && "adx16toaces20651"@[0] == 'a');
    assert("adx10toaces20651"@[4] == '0' && "adx16toaces20651"@[4] == '6');
    assert("sonyslog3sgamut3toaces20651"@[0] == 's' && "aceslmtbluelightartifactfix"@[0] == 'a');
    assert("canonclog2cgamuttoaces20651"@[0] == 'c' && "aceslmtbluelightartifactfix"@[0] == 'a');
    assert("canonclog3cgamuttoaces20651"@[0] == 'c' && "aceslmtbluelightartifactfix"@[0] == 'a');
    assert("displayciexyzd65todisplayp3"@[0] == 'd' && "aceslmtbluelightartifactfix"@[0] == 'a');
    assert("displayciexyzd65tog2.6p3d65"@[0] == 'd' && "aceslmtbluelightartifactfix"@[0] == 'a');
    assert("redredlogfilmrwgtoaces20651"@[0] == 'r' && "aceslmtbluelightartifactfix"@[0] == 'a');
    assert("displayciexyzd65tog2.2rec.709mirrornegs"@[0] == 'd' && "aceslmtaces1.3referencegamutcompression"@[0] == 'a');
}

/// Each named built-in transform is what its own name selects, so distinct
/// transforms are selected by distinct names.
pub proof fn law_canonical_name_selects_style(b: BuiltinStyle)
    ensures
        canonical_style_name(b) matches Some(n) ==> builtin_style_of(n) == Some(b),
{
    lemma_canonical_names();
}

} // verus!
