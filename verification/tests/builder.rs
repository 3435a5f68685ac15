use vfx_ocio::colorspace::{ColorSpace, Encoding, Family};
use vfx_ocio::config_builder::ConfigBuilder;
use vfx_ocio::display::{Display, View};

#[test]
fn build_minimal_config() {
    let config = ConfigBuilder::new("Test")
        .add_colorspace(ColorSpace::builder("Linear").encoding(Encoding::SceneLinear).build())
        .set_role("reference", "Linear")
        .build()
        .unwrap();

    assert_eq!(config.colorspaces().len(), 1);
    assert!(config.colorspace("Linear").is_some());
}

#[test]
fn build_with_display() {
    let mut display = Display::new("sRGB Monitor");
    display.add_view(View::new("Standard", "sRGB"));
    let config = ConfigBuilder::new("Test")
        .add_colorspace(ColorSpace::builder("Linear").encoding(Encoding::SceneLinear).build())
        .add_colorspace(ColorSpace::builder("sRGB").encoding(Encoding::Sdr).build())
        .set_role("reference", "Linear")
        .add_display(display)
        .build()
        .unwrap();

    assert_eq!(config.displays().displays().len(), 1);
}

#[test]
fn build_with_roles() {
    let config = ConfigBuilder::new("Test")
        .add_colorspace(ColorSpace::builder("ACES2065-1").encoding(Encoding::SceneLinear).family(Family::Aces).build())
        .add_colorspace(ColorSpace::builder("ACEScg").encoding(Encoding::SceneLinear).family(Family::Scene).build())
        .set_role("reference", "ACES2065-1")
        .set_role("scene_linear", "ACEScg")
        .build()
        .unwrap();

    // scene_linear should resolve to ACEScg
    assert!(config.colorspace("scene_linear").is_some());
    assert_eq!(config.colorspace("scene_linear").unwrap().name(), "ACEScg");
}

#[test]
fn build_fails_without_colorspaces() {
    let result = ConfigBuilder::new("Test").set_role("reference", "Linear").build();

    assert!(result.is_err());
    assert!(result.err().unwrap().message().contains("colorspace"));
}

#[test]
fn build_fails_without_reference() {
    let result = ConfigBuilder::new("Test").add_colorspace(ColorSpace::builder("Linear").build()).build();

    assert!(result.is_err());
    assert!(result.err().unwrap().message().contains("reference"));
}

#[test]
fn build_fails_with_invalid_role() {
    let result = ConfigBuilder::new("Test")
        .add_colorspace(ColorSpace::builder("Linear").build())
        .set_role("reference", "NonExistent")
        .build();

    assert!(result.is_err());
    assert!(result.err().unwrap().message().contains("NonExistent"));
}

#[test]
fn builder_collects_everything() {
    let mut d1 = Display::new("A");
    d1.add_view(View::new("V", "Lin"));
    let config = ConfigBuilder::default()
        .description("unused")
        .version(vfx_ocio::config::ConfigVersion::V1)
        .search_path("/luts")
        .working_dir("/w")
        .add_colorspaces(vec![ColorSpace::new("Lin"), ColorSpace::new("Log")])
        .set_role("reference", "lin")
        .add_displays(vec![d1, Display::new("B")])
        .active_displays(vec!["B".to_string()])
        .context_var("SHOT", "010")
        .build()
        .unwrap();
    assert_eq!(config.name(), "Untitled");
    assert_eq!(config.version(), vfx_ocio::config::ConfigVersion::V1);
    assert_eq!(config.search_paths(), &["/luts".to_string()]);
    assert_eq!(config.working_dir(), "/w");
    assert_eq!(config.colorspace_names(), vec!["Lin", "Log"]);
    assert_eq!(config.num_displays(), 2);
    assert_eq!(config.display_name_at(1), Some("B"));
    assert_eq!(config.default_display(), Some("B"));
    assert_eq!(config.environment_var("SHOT"), Some("010"));
}

#[test]
fn built_config_keeps_description() {
    let c = ConfigBuilder::new("Studio Config")
        .description("Custom studio configuration")
        .add_colorspace(ColorSpace::builder("Linear").build())
        .set_role("reference", "Linear")
        .build()
        .unwrap();
    assert_eq!(c.description(), "Custom studio configuration");
    assert_eq!(c.name(), "Studio Config");
    assert_eq!(c.colorspaces().len(), 1);
}
