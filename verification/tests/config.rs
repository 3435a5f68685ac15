use vfx_ocio::config::{Config, ConfigVersion};
use vfx_ocio::error::OcioError;

const MINIMAL_CONFIG: &str = r#"
ocio_profile_version: 2

roles:
  reference: Linear
  scene_linear: Linear
  default: sRGB

colorspaces:
  - name: Linear
    family: Scene
    encoding: scene-linear
    description: Linear reference

  - name: sRGB
    family: Display
    encoding: sdr-video
    description: sRGB display

displays:
  sRGB:
    - name: Raw
      colorspace: Linear
    - name: sRGB
      colorspace: sRGB
"#;

#[test]
fn parse_minimal_config() {
    let config = Config::from_yaml_str(MINIMAL_CONFIG, ".").unwrap();

    assert_eq!(config.version(), ConfigVersion::V2);
    assert_eq!(config.colorspaces().len(), 2);
    assert!(config.colorspace("Linear").is_some());
    assert!(config.colorspace("sRGB").is_some());
}

#[test]
fn roles_lookup() {
    let config = Config::from_yaml_str(MINIMAL_CONFIG, ".").unwrap();

    // Role should resolve to color space
    let cs = config.colorspace("scene_linear").unwrap();
    assert_eq!(cs.name(), "Linear");
}

#[test]
fn displays_parsed() {
    let config = Config::from_yaml_str(MINIMAL_CONFIG, ".").unwrap();

    let displays = config.displays();
    assert!(displays.display("sRGB").is_some());

    let display = displays.display("sRGB").unwrap();
    assert_eq!(display.views().len(), 2);
}

#[test]
fn parse_matrix_transform() {
    let yaml = r#"
ocio_profile_version: 2.1
roles:
  default: raw
colorspaces:
  - name: raw
    family: raw
  - name: WithMatrix
    from_scene_reference: !<MatrixTransform> {matrix: [1, 0, 0, 0, 0, 1, 0, 0, 0, 0, 1, 0, 0, 0, 0, 1]}
displays:
  sRGB:
    - name: Raw
      colorspace: raw
"#;
    let config = Config::from_yaml_str(yaml, ".").unwrap();
    let cs = config.colorspace("WithMatrix").unwrap();
    assert!(cs.from_reference().is_some());
}

#[test]
fn parse_fixed_function_transform() {
    let yaml = r#"
ocio_profile_version: 2.1
roles:
  default: raw
colorspaces:
  - name: raw
    family: raw
  - name: ACES_with_RedMod
    from_scene_reference: !<FixedFunctionTransform> {style: ACES_RedMod10}
displays:
  sRGB:
    - name: Raw
      colorspace: raw
"#;
    let config = Config::from_yaml_str(yaml, ".").unwrap();
    let cs = config.colorspace("ACES_with_RedMod").unwrap();
    assert!(cs.from_reference().is_some());
}

#[test]
fn parse_exposure_contrast_transform() {
    let yaml = r#"
ocio_profile_version: 2.1
roles:
  default: raw
colorspaces:
  - name: raw
    family: raw
  - name: Graded
    from_scene_reference: !<ExposureContrastTransform> {exposure: 1.0, contrast: 1.2, gamma: 0.9, pivot: 0.18, style: linear}
displays:
  sRGB:
    - name: Raw
      colorspace: raw
"#;
    let config = Config::from_yaml_str(yaml, ".").unwrap();
    let cs = config.colorspace("Graded").unwrap();
    assert!(cs.from_reference().is_some());
}

#[test]
fn parse_look_transform() {
    let yaml = r#"
ocio_profile_version: 2.1
roles:
  default: raw
colorspaces:
  - name: raw
    family: raw
  - name: WithLook
    from_scene_reference: !<LookTransform> {src: raw, dst: raw, looks: +FilmGrade}
displays:
  sRGB:
    - name: Raw
      colorspace: raw
"#;
    let config = Config::from_yaml_str(yaml, ".").unwrap();
    let cs = config.colorspace("WithLook").unwrap();
    assert!(cs.from_reference().is_some());
}

#[test]
fn parse_shared_views() {
    let yaml = r#"
ocio_profile_version: 2.3
roles:
  default: raw
colorspaces:
  - name: raw
    family: raw
  - name: sRGB
    family: display
shared_views:
  - name: Raw
    colorspace: raw
  - name: sRGB Display
    view_transform: ACES_1.0_SDR
    colorspace: sRGB
    looks: +FilmGrade
    description: Standard sRGB output
displays:
  Monitor:
    - name: Raw
      colorspace: raw
"#;
    let config = Config::from_yaml_str(yaml, ".").unwrap();
    assert_eq!(config.num_shared_views(), 2);
    let views = config.shared_views();
    assert_eq!(views[0].name, "Raw");
    assert_eq!(views[1].name, "sRGB Display");
    assert_eq!(views[1].view_transform, Some("ACES_1.0_SDR".to_string()));
    assert_eq!(views[1].looks, Some("+FilmGrade".to_string()));
}

#[test]
fn parse_named_transforms() {
    let yaml = r#"
ocio_profile_version: 2.1
roles:
  default: raw
colorspaces:
  - name: raw
    family: raw
named_transforms:
  - name: Utility - Exposure +1
    family: Utility
    description: Add one stop of exposure
    transform: !<ExposureContrastTransform> {exposure: 1.0, style: linear}
  - name: Utility - Rec709 to XYZ
    family: Utility
    forward_transform: !<MatrixTransform> {matrix: [0.4124, 0.3576, 0.1805, 0, 0.2126, 0.7152, 0.0722, 0, 0.0193, 0.1192, 0.9505, 0, 0, 0, 0, 1]}
    inverse_transform: !<MatrixTransform> {matrix: [3.2406, -1.5372, -0.4986, 0, -0.9689, 1.8758, 0.0415, 0, 0.0557, -0.2040, 1.0570, 0, 0, 0, 0, 1]}
displays:
  sRGB:
    - name: Raw
      colorspace: raw
"#;
    let config = Config::from_yaml_str(yaml, ".").unwrap();
    assert_eq!(config.num_named_transforms(), 2);

    let nt1 = config.named_transform("Utility - Exposure +1").unwrap();
    assert_eq!(nt1.family, Some("Utility".to_string()));
    assert!(nt1.forward.is_some());
    assert!(nt1.inverse.is_none());

    let nt2 = config.named_transform("Utility - Rec709 to XYZ").unwrap();
    assert!(nt2.forward.is_some());
    assert!(nt2.inverse.is_some());
}

#[test]
fn parse_viewing_rules() {
    let yaml = r#"
ocio_profile_version: 2.1

environment: {}
roles:
  default: scene_linear
file_rules:
  - !<Rule> {name: Default, colorspace: default}

viewing_rules:
  - !<Rule> {name: log-encoded, encodings: [log]}
  - !<Rule> {name: scene-linear, encodings: [scene-linear]}
  - !<Rule> {name: aces-primaries, colorspaces: [ACEScg, ACES2065-1]}

colorspaces:
  - !<ColorSpace>
    name: scene_linear
    encoding: scene-linear
  - !<ColorSpace>
    name: ACEScg
    encoding: scene-linear
  - !<ColorSpace>
    name: log_cs
    encoding: log
  - !<ColorSpace>
    name: raw
    isdata: true

displays:
  sRGB:
    - name: View
      colorspace: scene_linear
"#;
    let config = Config::from_yaml_str(yaml, ".").unwrap();

    assert_eq!(config.num_viewing_rules(), 3);

    // Check log rule
    let log_rule = config.viewing_rule("log-encoded").unwrap();
    assert_eq!(log_rule.encodings, vec!["log"]);
    assert!(log_rule.colorspaces.is_empty());

    // Check scene-linear rule
    let linear_rule = config.viewing_rule("scene-linear").unwrap();
    assert_eq!(linear_rule.encodings, vec!["scene-linear"]);

    // Check colorspace rule
    let aces_rule = config.viewing_rule("aces-primaries").unwrap();
    assert_eq!(aces_rule.colorspaces, vec!["ACEScg", "ACES2065-1"]);
    assert!(aces_rule.encodings.is_empty());
}

#[test]
fn file_rule_validation() {
    // Valid config with Default rule using role reference
    let yaml = r#"
ocio_profile_version: 2
roles:
  default: sRGB
  reference: scene_linear
file_rules:
  - !<Rule> {name: exr, pattern: "*.exr", colorspace: scene_linear}
  - !<Rule> {name: Default, colorspace: default}
colorspaces:
  - !<ColorSpace>
    name: scene_linear
  - !<ColorSpace>
    name: sRGB
displays:
  sRGB:
    - name: View
      colorspace: sRGB
"#;
    let config = Config::from_yaml_str(yaml, ".").unwrap();
    let errors = config.validate();
    assert!(errors.is_empty(), "Valid config should have no errors: {:?}", errors);

    // Invalid: Default rule references non-existent colorspace/role
    let yaml_bad_cs = r#"
ocio_profile_version: 2
roles:
  default: sRGB
  reference: sRGB
file_rules:
  - !<Rule> {name: Default, colorspace: nonexistent}
colorspaces:
  - !<ColorSpace>
    name: sRGB
displays:
  sRGB:
    - name: View
      colorspace: sRGB
"#;
    let config_bad = Config::from_yaml_str(yaml_bad_cs, ".").unwrap();
    let errors = config_bad.validate();
    assert!(
        errors.iter().any(|e| e.contains("nonexistent")),
        "Should detect invalid colorspace in Default rule: {:?}",
        errors
    );
}

#[test]
fn version_and_errors_of_reading() {
    let v1 = Config::from_yaml_str("ocio_profile_version: 1\ncolorspaces: []\n", ".").unwrap();
    assert_eq!(v1.version(), ConfigVersion::V1);
    assert!(v1.is_v1() && !v1.is_v2());
    assert_eq!(v1.major_version(), 1);

    match Config::from_yaml_str("ocio_profile_version: 3\n", ".") {
        Err(OcioError::UnsupportedVersion { version }) => assert_eq!(version, "3"),
        _ => panic!("expected an unsupported version"),
    }
    match Config::from_yaml_str("name: x\n", ".") {
        Err(OcioError::Yaml(m)) => assert_eq!(m, "missing ocio_profile_version"),
        _ => panic!("expected a missing version"),
    }
    match Config::from_yaml_str("", ".") {
        Err(OcioError::Yaml(m)) => assert_eq!(m, "empty YAML document"),
        _ => panic!("expected an empty document"),
    }
    assert!(matches!(Config::from_yaml_str("a: [1, 2", "."), Err(OcioError::Yaml(_))));
}

#[test]
fn strict_parsing_and_file_rule_errors() {
    let nameless = "ocio_profile_version: 2\ncolorspaces:\n  - family: x\n  - name: ok\n";
    match Config::from_yaml_str(nameless, ".") {
        Err(OcioError::Yaml(m)) => assert_eq!(m, "colorspace missing name"),
        _ => panic!("expected a nameless color space error"),
    }
    let lenient = "ocio_profile_version: 2\nstrictparsing: false\ncolorspaces:\n  - family: x\n  - name: ok\n";
    let c = Config::from_yaml_str(lenient, ".").unwrap();
    assert_eq!(c.colorspace_names(), vec!["ok"]);

    let no_default = "ocio_profile_version: 2\nfile_rules:\n  - {name: exr, pattern: \"*.exr\", colorspace: a}\n";
    match Config::from_yaml_str(no_default, ".") {
        Err(OcioError::Validation(m)) => assert_eq!(m, "file_rules must include a Default rule"),
        _ => panic!("expected a missing default rule"),
    }
    let not_last = "ocio_profile_version: 2\nfile_rules:\n  - {name: default, colorspace: a}\n  - {name: exr, pattern: \"*.exr\", colorspace: a}\n";
    match Config::from_yaml_str(not_last, ".") {
        Err(OcioError::Validation(m)) => assert_eq!(m, "Default rule must be the last file rule"),
        _ => panic!("expected a misplaced default rule"),
    }
    let bad_regex = "ocio_profile_version: 2\nfile_rules:\n  - {name: r, regex: \"(\", colorspace: a}\n  - {name: Default, colorspace: a}\n";
    match Config::from_yaml_str(bad_regex, ".") {
        Err(OcioError::Validation(m)) => assert!(m.starts_with("invalid regex rule 'r': ")),
        _ => panic!("expected a refused regex"),
    }
    let bad_glob = "ocio_profile_version: 2\nfile_rules:\n  - {name: g, pattern: \"[\", colorspace: a}\n  - {name: Default, colorspace: a}\n";
    match Config::from_yaml_str(bad_glob, ".") {
        Err(OcioError::Validation(m)) => assert!(m.starts_with("invalid glob pattern 'g': ")),
        _ => panic!("expected a refused glob"),
    }
    let bad_ext = "ocio_profile_version: 2\nfile_rules:\n  - {name: e, extension: \"[\", colorspace: a}\n  - {name: Default, colorspace: a}\n";
    match Config::from_yaml_str(bad_ext, ".") {
        Err(OcioError::Validation(m)) => assert!(m.starts_with("invalid extension glob 'e': ")),
        _ => panic!("expected a refused extension glob"),
    }
}

#[test]
fn sections_read_from_yaml() {
    let yaml = r#"
ocio_profile_version: 2
name: Studio
search_path: luts:/abs/path::more
active_displays: [sRGB, P3]
active_views: [Film]
inactive_colorspaces: [Old]
roles:
  reference: Lin2
  scene_linear: Lin
colorspaces:
  - name: Lin
    aliases: [linear, lin_srgb]
    encoding: Data
    to_reference: !<MatrixTransform> {}
    to_scene_reference: !<BogusTransform> {}
    from_reference: [!<MatrixTransform> {}]
  - name: Lin2
    isdata: true
    to_reference: !<FileTransform> {path: x}
looks:
  - name: Grade
    process_space: Lin
    transform: !<CDLTransform> {}
view_transforms:
  - name: SDR
    family: aces
    from_scene_reference: !<BuiltinTransform> {style: ACES}
displays:
  sRGB:
    - name: Film
      colorspace: Lin
      looks: Grade
    - name: Broken
  P3:
    - !<View> {name: Raw, colorspace: Lin2}
"#;
    let c = Config::from_yaml_str(yaml, "/cfg").unwrap();
    assert_eq!(c.name(), "Studio");
    assert_eq!(c.working_dir(), "/cfg");
    assert_eq!(c.search_paths(), &["/cfg/luts".to_string(), "/abs/path".to_string(), "/cfg/more".to_string()]);
    assert_eq!(c.active_displays(), &["sRGB".to_string(), "P3".to_string()]);
    assert_eq!(c.active_views(), &["Film".to_string()]);
    assert!(c.is_colorspace_inactive("old"));
    assert_eq!(c.num_roles(), 2);
    assert_eq!(c.role_name_at(0), Some("reference"));
    assert_eq!(c.roles().get("reference"), Some("Lin2"));
    let lin = c.colorspace("LIN_SRGB").unwrap();
    assert_eq!(lin.name(), "Lin");
    assert_eq!(lin.aliases(), &["linear".to_string(), "lin_srgb".to_string()]);
    assert!(lin.is_data());
    assert!(lin.to_reference().is_some());
    assert!(lin.from_reference().is_some());
    assert!(c.colorspace("Lin2").unwrap().is_data());
    assert!(c.colorspace("Lin2").unwrap().to_reference().is_none());
    let look = c.look("grade").unwrap();
    assert_eq!(look.get_process_space(), Some("Lin"));
    assert!(look.get_transform().is_some());
    let vt = c.view_transform("sdr").unwrap();
    assert_eq!(vt.family(), "aces");
    assert!(vt.from_scene_reference().is_some());
    assert_eq!(c.default_display(), Some("sRGB"));
    assert_eq!(c.displays().display("sRGB").unwrap().views().len(), 1);
    assert_eq!(c.default_view("P3"), Some("Raw"));
    assert_eq!(c.displays().display("sRGB").unwrap().view("film").unwrap().looks(), Some("Grade"));
}
