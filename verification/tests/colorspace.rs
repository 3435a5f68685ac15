use vfx_ocio::colorspace::{BitDepth, ColorSpace, Encoding, Family};

#[test]
fn build_colorspace() {
    let cs = ColorSpace::builder("ACEScg")
        .alias("ACES - ACEScg")
        .family(Family::Scene)
        .encoding(Encoding::SceneLinear)
        .description("ACES CG working space")
        .build();

    assert_eq!(cs.name(), "ACEScg");
    assert_eq!(cs.family(), Family::Scene);
    assert_eq!(cs.encoding(), Encoding::SceneLinear);
    assert!(cs.encoding().is_linear());
    assert!(cs.matches_name("acescg"));
    assert!(cs.matches_name("ACES - ACEScg"));
}

#[test]
fn encoding_parse() {
    assert_eq!(Encoding::parse("scene-linear"), Encoding::SceneLinear);
    assert_eq!(Encoding::parse("log"), Encoding::Log);
    assert_eq!(Encoding::parse("data"), Encoding::Data);
}

#[test]
fn data_colorspace() {
    let cs = ColorSpace::builder("Raw").encoding(Encoding::Data).build();

    assert!(cs.is_data());
}

#[test]
fn encoding_parse_ignores_ascii_case_and_aliases() {
    assert_eq!(Encoding::parse("Scene_Linear"), Encoding::SceneLinear);
    assert_eq!(Encoding::parse("LINEAR"), Encoding::SceneLinear);
    assert_eq!(Encoding::parse("display-linear"), Encoding::DisplayLinear);
    assert_eq!(Encoding::parse("sdr"), Encoding::Sdr);
    assert_eq!(Encoding::parse("HDR-Video"), Encoding::Hdr);
    assert_eq!(Encoding::parse("something"), Encoding::Unknown);
    assert_eq!(Encoding::parse(""), Encoding::Unknown);
}

#[test]
fn encoding_keyword_round_trip() {
    for e in [
        Encoding::SceneLinear,
        Encoding::DisplayLinear,
        Encoding::Log,
        Encoding::Sdr,
        Encoding::Hdr,
        Encoding::Data,
    ] {
        assert_eq!(Encoding::parse(e.as_str()), e);
    }
    assert_eq!(Encoding::Unknown.as_str(), "");
    assert!(Encoding::DisplayLinear.is_linear());
    assert!(!Encoding::Log.is_linear());
}

#[test]
fn family_parse_and_round_trip() {
    assert_eq!(Family::parse("Camera"), Family::Input);
    assert_eq!(Family::parse("delivery"), Family::Output);
    assert_eq!(Family::parse("Utilities"), Family::Utility);
    assert_eq!(Family::parse("ACES"), Family::Aces);
    assert_eq!(Family::parse("raw"), Family::Other);
    assert_eq!(Family::Aces.as_str(), "ACES");
    for f in [Family::Scene, Family::Display, Family::Input, Family::Output, Family::Utility, Family::Aces] {
        assert_eq!(Family::parse(f.as_str()), f);
    }
}

#[test]
fn new_colorspace_defaults() {
    let cs = ColorSpace::new("Plain");
    assert_eq!(cs.name(), "Plain");
    assert!(cs.aliases().is_empty());
    assert_eq!(cs.description(), "");
    assert_eq!(cs.family(), Family::Other);
    assert_eq!(cs.encoding(), Encoding::Unknown);
    assert_eq!(cs.bit_depth(), BitDepth::F32);
    assert!(!cs.is_data());
    assert!(cs.to_reference().is_none());
    assert!(cs.from_reference().is_none());
}

#[test]
fn matches_name_is_ascii_case_insensitive_only() {
    let cs = ColorSpace::builder("sRGB").alias("srgb_tx").build();
    assert!(cs.matches_name("SRGB"));
    assert!(cs.matches_name("SRGB_TX"));
    assert!(!cs.matches_name("sRGB "));
    assert!(!cs.matches_name("Linear"));
}
