use vfx_ocio::builtin::{aces_1_3, available_configs, get_config, rec709_studio, srgb_studio};
use vfx_ocio::{BitDepth, Encoding, Family};

#[test]
fn aces_config_has_colorspaces() {
    let config = aces_1_3();
    assert!(config.colorspaces().len() >= 8);
}

#[test]
fn aces_config_has_roles() {
    let config = aces_1_3();
    assert!(config.roles().has_reference());
    assert_eq!(config.roles().reference(), Some("ACES2065-1"));
    assert_eq!(config.roles().scene_linear(), Some("ACEScg"));
}

#[test]
fn aces_colorspace_lookup() {
    let config = aces_1_3();

    // By name
    assert!(config.colorspace("ACEScg").is_some());

    // By alias
    assert!(config.colorspace("ACES - ACEScg").is_some());

    // By role
    assert!(config.colorspace("scene_linear").is_some());
}

#[test]
fn srgb_studio_config() {
    let config = srgb_studio();
    assert!(config.colorspace("Linear sRGB").is_some());
    assert!(config.colorspace("sRGB").is_some());
}

#[test]
fn get_builtin_by_name() {
    assert!(get_config("aces_1.3").is_some());
    assert!(get_config("ACES").is_some());
    assert!(get_config("srgb_studio").is_some());
    assert!(get_config("unknown").is_none());
}

#[test]
fn available_configs_not_empty() {
    assert!(!available_configs().is_empty());
}

#[test]
fn aces_config_layout() {
    let config = aces_1_3();
    let names: Vec<&str> = config.colorspaces().iter().map(|c| c.name()).collect();
    assert_eq!(
        names,
        vec!["ACES2065-1", "ACEScg", "ACEScct", "ACEScc", "Raw", "Linear sRGB", "sRGB", "Rec.709"]
    );
    assert_eq!(config.num_displays(), 2);
    assert_eq!(config.default_display(), Some("sRGB"));
    assert_eq!(config.colorspace("color_timing").map(|c| c.name()), Some("ACEScct"));
    assert_eq!(config.colorspace("aces").map(|c| c.name()), Some("ACES2065-1"));
    let raw = config.colorspace("Non-Color").unwrap();
    assert!(raw.is_data());
    assert_eq!(raw.family(), Family::Utility);
    let srgb = config.colorspace("sRGB").unwrap();
    assert_eq!(srgb.bit_depth(), BitDepth::Uint8);
    assert_eq!(srgb.encoding(), Encoding::Sdr);
    assert!(srgb.to_reference().is_some());
    assert!(config.colorspace("ACES2065-1").unwrap().to_reference().is_none());
}

#[test]
fn studio_configs_default_space() {
    assert_eq!(srgb_studio().colorspace("default").map(|c| c.name()), Some("sRGB"));
    assert_eq!(rec709_studio().colorspace("default").map(|c| c.name()), Some("Rec.709"));
    assert_eq!(rec709_studio().colorspace("data").map(|c| c.name()), Some("Raw"));
    assert!(get_config("REC.709").is_some());
    assert!(get_config("Srgb").is_some());
    assert!(get_config("aces 1.3").is_none());
}

#[test]
fn every_available_config_can_be_had() {
    for name in available_configs() {
        assert!(get_config(name).is_some(), "{}", name);
    }
}

#[test]
fn remove_role_from_aces_config() {
    let mut c = aces_1_3();
    assert_eq!(c.remove_role("scene_linear"), Some("ACEScg".to_string()));
    assert!(!c.has_role("scene_linear"));
    assert_eq!(c.roles().get("scene_linear"), None);
    assert_eq!(c.roles().reference(), Some("ACES2065-1"));
    assert_eq!(c.remove_role("scene_linear"), None);
}

#[test]
fn role_access() {
    let config = aces_1_3();

    // Access by role name
    let linear = config.colorspace("scene_linear").unwrap();
    assert_eq!(linear.name(), "ACEScg");
}

#[test]
fn aces_lookup_gives_the_named_space() {
    let config = aces_1_3();
    assert_eq!(config.colorspace("ACEScg").map(|c| c.name()), Some("ACEScg"));
    assert_eq!(config.colorspace("ACES - ACEScg").map(|c| c.name()), Some("ACEScg"));
    assert_eq!(config.colorspace("scene_linear").map(|c| c.name()), Some("ACEScg"));
    assert_eq!(srgb_studio().colorspace("Linear sRGB").map(|c| c.name()), Some("Linear sRGB"));
}
