use vfx_ocio::chain::ChainStep;
use vfx_ocio::config::Config;
use vfx_ocio::display::View;
use vfx_ocio::error::OcioError;
use vfx_ocio::transform::TransformDirection;
use vfx_ocio::yaml::YamlNode;

const CHAIN_CONFIG: &str = r#"
ocio_profile_version: 2
roles: {reference: Lin}
colorspaces:
  - name: Lin
  - name: Log
    to_reference: !<LogTransform> {}
  - name: Disp
    from_reference: !<MatrixTransform> {}
    from_display_reference: !<CDLTransform> {}
  - name: Vid
    to_reference: !<ExponentTransform> {}
looks:
  - name: Grade
    process_space: Log
    transform: !<CDLTransform> {}
  - name: Inv
    transform: !<MatrixTransform> {}
    inverse_transform: !<RangeTransform> {}
view_transforms:
  - name: Tone
    to_scene_reference: !<BuiltinTransform> {style: X}
displays:
  Mon:
    - name: Film
      colorspace: Disp
      looks: Grade
"#;

fn tags(steps: &[ChainStep]) -> Vec<(String, TransformDirection)> {
    steps
        .iter()
        .map(|s| match &s.transform {
            YamlNode::Tagged(t, _) => (t.clone(), s.direction),
            _ => (String::new(), s.direction),
        })
        .collect()
}

fn t(name: &str, d: TransformDirection) -> (String, TransformDirection) {
    (name.to_string(), d)
}

use TransformDirection::{Forward as F, Inverse as I};

#[test]
fn steps_between_colorspaces() {
    let c = Config::from_yaml_str(CHAIN_CONFIG, ".").unwrap();
    let steps = c.processor_steps("log", "Vid").unwrap();
    assert_eq!(tags(&steps), vec![t("LogTransform", F), t("ExponentTransform", I)]);
    assert!(c.processor_steps("Lin", "Lin").unwrap().is_empty());
    match c.processor_steps("Nope", "Lin") {
        Err(OcioError::ColorSpaceNotFound { name }) => assert_eq!(name, "Nope"),
        _ => panic!("expected an unknown color space"),
    }
    match c.processor_steps("Lin", "Gone") {
        Err(OcioError::ColorSpaceNotFound { name }) => assert_eq!(name, "Gone"),
        _ => panic!("expected an unknown color space"),
    }
}

#[test]
fn steps_through_looks() {
    let c = Config::from_yaml_str(CHAIN_CONFIG, ".").unwrap();
    let steps = c.processor_with_looks_steps("Lin", "Disp", "Grade, -inv").unwrap();
    assert_eq!(
        tags(&steps),
        vec![t("CDLTransform", F), t("LogTransform", F), t("RangeTransform", I), t("MatrixTransform", F)]
    );
    let plain = c.processor_with_looks_steps("Lin", "Disp", "  ").unwrap();
    assert_eq!(tags(&plain), vec![t("MatrixTransform", F)]);
    match c.processor_with_looks_steps("Lin", "Disp", "Missing") {
        Err(OcioError::LookNotFound { name }) => assert_eq!(name, "Missing"),
        _ => panic!("expected an unknown look"),
    }
}

#[test]
fn steps_to_a_display_view() {
    let mut c = Config::from_yaml_str(CHAIN_CONFIG, ".").unwrap();
    let steps = c.display_processor_steps("Log", "mon", "film").unwrap();
    assert_eq!(
        tags(&steps),
        vec![t("LogTransform", F), t("CDLTransform", F), t("LogTransform", F), t("MatrixTransform", F)]
    );

    c.add_view("Mon", View::new("Toned", "Disp").with_view_transform("tone"));
    let toned = c.display_processor_steps("Lin", "Mon", "Toned").unwrap();
    assert_eq!(tags(&toned), vec![t("BuiltinTransform", I), t("CDLTransform", F)]);

    c.add_view("Mon", View::new("Bad", "Disp").with_view_transform("nope"));
    match c.display_processor_steps("Lin", "Mon", "Bad") {
        Err(OcioError::Validation(m)) => assert_eq!(m, "view transform not found: nope"),
        _ => panic!("expected an unknown view transform"),
    }
    match c.display_processor_steps("Lin", "X", "Film") {
        Err(OcioError::DisplayNotFound { name }) => assert_eq!(name, "X"),
        _ => panic!("expected an unknown display"),
    }
    match c.display_processor_steps("Lin", "Mon", "Y") {
        Err(OcioError::ViewNotFound { display, view }) => {
            assert_eq!(display, "Mon");
            assert_eq!(view, "Y");
        },
        _ => panic!("expected an unknown view"),
    }
    match c.display_processor_steps("Q", "Mon", "Film") {
        Err(OcioError::ColorSpaceNotFound { name }) => assert_eq!(name, "Q"),
        _ => panic!("expected an unknown color space"),
    }
}

const MINIMAL_CONFIG: &str = r#"
ocio_profile_version: 2

roles:
  reference: Linear
  scene_linear: Linear
  default: sRGB

colorspaces:
  - name: Linear
    family: Scene
    encoding: scene-linear
    description: Linear reference

  - name: sRGB
    family: Display
    encoding: sdr-video
    description: sRGB display

displays:
  sRGB:
    - name: Raw
      colorspace: Linear
    - name: sRGB
      colorspace: sRGB
"#;

#[test]
fn create_processor() {
    let config = Config::from_yaml_str(MINIMAL_CONFIG, ".").unwrap();

    // Should not fail even without transforms defined
    let result = config.processor_steps("Linear", "sRGB");
    assert!(result.is_ok());
}

#[test]
fn colorspace_not_found() {
    let config = Config::from_yaml_str(MINIMAL_CONFIG, ".").unwrap();

    let result = config.processor_steps("NonExistent", "sRGB");
    assert!(matches!(result, Err(OcioError::ColorSpaceNotFound { .. })));
}
