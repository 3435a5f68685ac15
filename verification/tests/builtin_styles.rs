use vfx_ocio::builtin_transforms::{
    builtin_style, Aces1Output, Aces1Primaries, Aces2Output, Aces2Primaries, BuiltinStyle,
};

#[test]
fn test_unknown_returns_none() {
    assert!(builtin_style("UNKNOWN_TRANSFORM_XYZ").is_none());
}

#[test]
fn test_style_normalization() {
    // All these should match the same transform
    assert!(builtin_style("ACES-AP0_to_AP1").is_some());
    assert!(builtin_style("aces_ap0_to_ap1").is_some());
    assert!(builtin_style("ACESAP0TOAP1").is_some());
    assert!(builtin_style("aces ap0 to ap1").is_some());
}

#[test]
fn test_aces2_output_resolve() {
    // Spot-check several ACES 2.0 output transforms
    let styles = [
        "ACES-OUTPUT - ACES2065-1_to_CIE-XYZ-D65 - SDR-100nit-REC709_2.0",
        "ACES-OUTPUT - ACES2065-1_to_CIE-XYZ-D65 - SDR-100nit-P3-D65_2.0",
        "ACES-OUTPUT - ACES2065-1_to_CIE-XYZ-D65 - HDR-1000nit-P3-D65_2.0",
        "ACES-OUTPUT - ACES2065-1_to_CIE-XYZ-D65 - HDR-4000nit-REC2020_2.0",
        "ACES-OUTPUT - ACES2065-1_to_CIE-XYZ-D65 - SDR-100nit-REC709-D60-in-REC709-D65_2.0",
        "ACES-OUTPUT - ACES2065-1_to_CIE-XYZ-D65 - HDR-4000nit-P3-D60-in-P3-D65_2.0",
        "ACES-OUTPUT - ACES2065-1_to_CIE-XYZ-D65 - HDR-4000nit-REC2020-D60-in-REC2020-D65_2.0",
    ];
    for style in &styles {
        let def = builtin_style(style);
        assert!(def.is_some(), "Missing ACES 2.0 output: {}", style);
    }
}

#[test]
fn named_styles_map_to_their_transform() {
    assert_eq!(builtin_style("IDENTITY"), Some(BuiltinStyle::Identity));
    assert_eq!(builtin_style("ACES-AP0_to_AP1"), Some(BuiltinStyle::AcesAp0ToAp1));
    assert_eq!(builtin_style("ACEScg_to_ACES2065-1"), Some(BuiltinStyle::AcesAp1ToAp0));
    assert_eq!(builtin_style("ACEScct_to_ACES2065-1"), Some(BuiltinStyle::AcesCctToAces20651));
    assert_eq!(builtin_style("ARRI_LogC3_to_ACES2065-1"), Some(BuiltinStyle::ArriLogC3ToAces20651));
    assert_eq!(
        builtin_style("PANASONIC_VLOG-VGAMUT_to_ACES2065-1"),
        Some(BuiltinStyle::PanasonicVLogVGamutToAces20651)
    );
    assert_eq!(
        builtin_style("DISPLAY - CIE-XYZ-D65_to_REC.1886-REC.709"),
        Some(BuiltinStyle::DisplayCieXyzD65ToRec1886Rec709)
    );
    assert_eq!(
        builtin_style("ACES-LMT - ACES 1.3 Reference Gamut Compression"),
        Some(BuiltinStyle::AcesLmtAces13ReferenceGamutCompression)
    );
    assert_eq!(builtin_style("ADX16_to_ACES2065-1"), Some(BuiltinStyle::Adx16ToAces20651));
}

#[test]
fn aces1_output_variants() {
    let p = "ACES-OUTPUT - ACES2065-1_to_CIE-XYZ-D65 - ";
    let style = |v: &str| builtin_style(&format!("{}{}", p, v));
    assert_eq!(style("SDR-CINEMA_1.0"), Some(BuiltinStyle::AcesOutput1(Aces1Output::Sdr { video: false })));
    assert_eq!(style("SDR-VIDEO_1.0"), Some(BuiltinStyle::AcesOutput1(Aces1Output::Sdr { video: true })));
    assert_eq!(
        style("SDR-VIDEO-P3lim_1.1"),
        Some(BuiltinStyle::AcesOutput1(Aces1Output::SdrLimited { video: true, limiting: Aces1Primaries::P3D65 }))
    );
    assert_eq!(
        style("SDR-CINEMA-D60sim-D65_1.1"),
        Some(BuiltinStyle::AcesOutput1(Aces1Output::SdrD60SimD65 { cinema: true, video: false }))
    );
    assert_eq!(style("SDR-CINEMA-D60sim-DCI_1.0"), Some(BuiltinStyle::AcesOutput1(Aces1Output::SdrD60SimDci)));
    assert_eq!(style("SDR-CINEMA-D65sim-DCI_1.1"), Some(BuiltinStyle::AcesOutput1(Aces1Output::SdrD65SimDci)));
    assert_eq!(
        style("HDR-VIDEO-2000nit-15nit-REC2020lim_1.1"),
        Some(BuiltinStyle::AcesOutput1(Aces1Output::Hdr { peak_nits: 2000, limiting: Aces1Primaries::Rec2020 }))
    );
    assert_eq!(style("HDR-VIDEO-600nit-15nit-P3lim_1.1"), None);
    assert_eq!(style("HDR-VIDEO-1000nit-15nit_1.1"), None);
}

#[test]
fn aces2_output_variants() {
    let p = "ACES-OUTPUT - ACES2065-1_to_CIE-XYZ-D65 - ";
    let style = |v: &str| builtin_style(&format!("{}{}", p, v));
    assert_eq!(
        style("SDR-100nit-REC709_2.0"),
        Some(BuiltinStyle::AcesOutput2(Aces2Output { peak_nits: 100, limiting: Aces2Primaries::Rec709 }))
    );
    assert_eq!(
        style("HDR-4000nit-P3-D60-in-P3-D65_2.0"),
        Some(BuiltinStyle::AcesOutput2(Aces2Output { peak_nits: 4000, limiting: Aces2Primaries::P3D60 }))
    );
    assert_eq!(
        style("HDR-500nit-REC2020_2.0"),
        Some(BuiltinStyle::AcesOutput2(Aces2Output { peak_nits: 500, limiting: Aces2Primaries::Rec2020 }))
    );
    assert_eq!(style("HDR-600nit-REC2020_2.0"), None);
    assert_eq!(style("SDR-100nit-REC709_3.0"), None);
}
