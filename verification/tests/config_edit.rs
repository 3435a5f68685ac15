use vfx_ocio::colorspace::{ColorSpace, Encoding, Family};
use vfx_ocio::config::{Config, ConfigVersion, SharedView, ViewingRule};
use vfx_ocio::display::{Display, View, ViewTransform};
use vfx_ocio::look::Look;

fn shared(name: &str, rule: Option<&str>) -> SharedView {
    SharedView {
        name: name.to_string(),
        view_transform: None,
        display_colorspace: "sRGB".to_string(),
        looks: None,
        rule: rule.map(|r| r.to_string()),
        description: None,
    }
}

fn rules_config() -> Config {
    let yaml = r#"
ocio_profile_version: 2
roles: {reference: Lin, scene_linear: Lin, data: Raw}
viewing_rules:
  - {name: linear, encodings: [scene-linear]}
  - {name: only-log, colorspaces: [Log]}
  - {name: anything}
colorspaces:
  - {name: Lin, encoding: scene-linear, family: scene}
  - {name: Log, encoding: log, family: scene}
  - {name: Plain}
  - {name: Raw, isdata: true, family: utility}
inactive_colorspaces: [plain]
shared_views:
  - {name: A}
  - {name: B, rule: linear, display_colorspace: P3}
  - {name: C, rule: only-log}
  - {name: D, rule: anything}
  - {name: E, rule: unknown}
"#;
    Config::from_yaml_str(yaml, ".").unwrap()
}

#[test]
fn raw_config() {
    let config = Config::create_raw();
    assert!(config.colorspace("Raw").is_some());
    assert_eq!(config.name(), "Raw Config");
    assert!(config.is_v2());
    assert_eq!(config.reference_space(), Some("Raw"));
    assert_eq!(config.data_space(), Some("Raw"));
    assert_eq!(config.scene_linear_space(), None);
    assert!(config.colorspace("raw").unwrap().is_data());
    assert!(config.is_valid());
    assert_eq!(config.num_roles(), 3);
    assert_eq!(config.role_name_at(1), Some("data"));
    assert_eq!(config.role_colorspace_at(2), Some("Raw"));
    assert_eq!(config.role_name_at(3), None);
}

#[test]
fn empty_config_validation_messages() {
    let c = Config::new();
    assert_eq!(
        c.validate(),
        vec!["Config has no color spaces defined".to_string(), "Config is missing the 'reference' role".to_string()]
    );
    assert!(!c.is_valid());
    assert_eq!(c.version(), ConfigVersion::V1);
    assert_eq!(c.working_dir(), ".");
}

#[test]
fn validation_of_references() {
    let mut c = Config::new();
    c.set_version(2, 0);
    c.add_colorspace(ColorSpace::new("Lin"));
    c.set_role("reference", "Lin");
    c.set_role("extra", "Gone");
    let mut d = Display::new("Mon");
    d.add_view(View::new("V", "Nowhere"));
    c.add_display(d);
    c.add_look(Look::new("L").process_space("Missing"));
    c.add_look(Look::new("Ok").process_space(""));
    c.add_file_rule(vfx_ocio::config::FileRule {
        name: "Default".to_string(),
        colorspace: "Lin".to_string(),
        kind: vfx_ocio::config::FileRuleKind::Default,
    });
    c.add_file_rule(vfx_ocio::config::FileRule {
        name: "Default".to_string(),
        colorspace: "zzz".to_string(),
        kind: vfx_ocio::config::FileRuleKind::Default,
    });
    c.add_file_rule(vfx_ocio::config::FileRule {
        name: "r".to_string(),
        colorspace: "extra".to_string(),
        kind: vfx_ocio::config::FileRuleKind::Regex { regex: "x".to_string() },
    });
    assert_eq!(
        c.validate(),
        vec![
            "Role 'extra' references non-existent color space 'Gone'".to_string(),
            "View 'V' in display 'Mon' references non-existent color space 'Nowhere'".to_string(),
            "Look 'L' references non-existent process space 'Missing'".to_string(),
            "File rules must have exactly one Default rule, found 2".to_string(),
            "Default rule must be the last file rule".to_string(),
            "File rule 'Default' references non-existent color space or role 'zzz'".to_string(),
        ]
    );
}

#[test]
fn listings_and_lookups() {
    let c = rules_config();
    let names = |v: Vec<&ColorSpace>| v.iter().map(|cs| cs.name().to_string()).collect::<Vec<_>>();
    assert_eq!(names(c.colorspaces_by_family(Family::Scene)), vec!["Lin", "Log"]);
    assert_eq!(names(c.colorspaces_by_encoding(Encoding::Log)), vec!["Log"]);
    assert_eq!(names(c.linear_colorspaces()), vec!["Lin"]);
    assert_eq!(names(c.data_colorspaces()), vec!["Raw"]);
    assert_eq!(names(c.active_colorspaces()), vec!["Lin", "Log", "Raw"]);
    assert!(c.is_colorspace_linear("scene_linear"));
    assert!(!c.is_colorspace_linear("Log"));
    assert!(!c.is_colorspace_linear("nothing"));
    assert_eq!(c.resolve_colorspace_name("scene_linear"), Some("Lin"));
    assert_eq!(c.resolve_colorspace_name("log"), Some("Log"));
    assert_eq!(c.resolve_colorspace_name("nothing"), None);
    assert_eq!(c.num_colorspaces(), 4);
    assert!(c.has_role("data"));
    assert!(!c.has_role("default"));
}

#[test]
fn viewing_rules_select_shared_views() {
    let c = rules_config();
    assert_eq!(c.shared_views()[1].display_colorspace, "P3");
    assert_eq!(c.shared_views()[0].display_colorspace, "");
    let names = |cs: &str| c.applicable_views(cs).iter().map(|v| v.name.clone()).collect::<Vec<_>>();
    assert_eq!(names("Lin"), vec!["A", "B", "D", "E"]);
    assert_eq!(names("Log"), vec!["A", "C", "D", "E"]);
    assert_eq!(names("Plain"), vec!["A", "D", "E"]);
    assert_eq!(names("unknown cs"), vec!["A", "B", "C", "D", "E"]);
    assert!(c.is_view_applicable(&shared("x", None), "Plain"));
    assert!(!c.is_view_applicable(&shared("x", Some("linear")), "Raw"));
    let rule: &ViewingRule = c.viewing_rule("linear").unwrap();
    assert_eq!(rule.encodings, vec!["scene-linear".to_string()]);
    assert!(c.viewing_rule("Linear").is_none());
    assert_eq!(c.viewing_rules().len(), 3);
}

#[test]
fn editing_colorspaces_and_metadata() {
    let mut c = rules_config();
    assert!(c.remove_colorspace("LOG"));
    assert!(!c.remove_colorspace("LOG"));
    assert_eq!(c.colorspace_names(), vec!["Lin", "Plain", "Raw"]);
    c.add_inactive_colorspace("Raw");
    assert!(c.is_colorspace_inactive("raw"));
    c.set_inactive_colorspaces(vec![]);
    assert!(!c.is_colorspace_inactive("plain"));
    c.clear_colorspaces();
    assert_eq!(c.num_colorspaces(), 0);
    assert_eq!(c.description(), "");
    c.set_description("desc");
    assert_eq!(c.description(), "desc");
    assert_eq!(c.name(), "");
    c.set_version(1, 9);
    assert_eq!(c.major_version(), 1);
    assert_eq!(c.minor_version(), 0);
    c.set_version(3, 0);
    assert_eq!(c.version(), ConfigVersion::V2);
    c.set_search_paths(vec!["a".to_string()]);
    assert_eq!(c.search_paths(), &["a".to_string()]);
    c.clear_search_paths();
    assert!(c.search_paths().is_empty());
    c.set_working_dir("/w");
    assert_eq!(c.working_dir(), "/w");
    assert_eq!(c.remove_role("reference"), Some("Lin".to_string()));
    assert!(!c.has_role("reference"));
    assert_eq!(c.remove_role("reference"), None);
    assert_eq!(c.roles().get("scene_linear"), Some("Lin"));
    assert_eq!(c.role_name_at(0), Some("scene_linear"));
}

#[test]
fn environment_variables() {
    let mut c = Config::new();
    c.set_environment_var("SHOT", "010");
    c.set_environment_var("SEQ", "A");
    c.set_environment_var("SHOT", "020");
    assert_eq!(c.num_environment_vars(), 2);
    assert_eq!(c.environment_var("SHOT"), Some("020"));
    assert_eq!(c.environment_var("NONE"), None);
    assert_eq!(c.environment_var_name_at(0), Some("SHOT"));
    assert_eq!(c.environment_var_value_at(1), Some("A"));
    assert_eq!(c.environment_var_name_at(2), None);
    assert_eq!(c.context().resolve("$SEQ/$SHOT"), "A/020");
}

#[test]
fn displays_looks_and_view_transforms() {
    let mut c = Config::new();
    let mut d = Display::new("A");
    d.add_view(View::new("V1", "cs"));
    c.add_display(d);
    c.add_display(Display::new("B"));
    c.add_view("b", View::new("V2", "cs"));
    assert_eq!(c.num_displays(), 2);
    assert_eq!(c.display_name_at(0), Some("A"));
    assert_eq!(c.default_display(), Some("A"));
    assert_eq!(c.default_view("B"), Some("V2"));
    assert_eq!(c.default_view("C"), None);
    c.remove_display("a");
    assert_eq!(c.num_displays(), 1);
    c.add_look(Look::new("Grade"));
    assert_eq!(c.num_looks(), 1);
    assert_eq!(c.look_name_at(0), Some("Grade"));
    assert!(c.has_look("GRADE"));
    assert!(!c.has_look("other"));
    c.add_view_transform(ViewTransform::new("Tone"));
    assert_eq!(c.num_view_transforms(), 1);
    assert_eq!(c.view_transform_name_at(0), Some("Tone"));
    assert!(c.view_transform("tone").is_some());
    assert_eq!(c.view_transforms().len(), 1);
    assert_eq!(c.num_named_transforms(), 0);
    assert!(c.named_transform("x").is_none());
    assert_eq!(c.num_shared_views(), 0);
}

#[test]
fn context_changed_in_place() {
    let mut c = Config::new();
    c.context_mut().set("SHOT", "sh010");
    assert_eq!(c.context().get("SHOT"), Some("sh010".to_string()));
    assert_eq!(c.context().resolve("/shots/$SHOT"), "/shots/sh010");
    c.record_process_env_var("SEQ", "sq01");
    assert_eq!(c.context().get("SEQ"), Some("sq01".to_string()));
    c.context_mut().set("SEQ", "sq02");
    assert_eq!(c.context().get("SEQ"), Some("sq02".to_string()));
}
