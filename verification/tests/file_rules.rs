use vfx_ocio::config::{Config, FileRule, FileRuleKind};
use vfx_ocio::file_rules::{has_glob_chars, normalize_path};

const RULES_CONFIG: &str = r#"
ocio_profile_version: 2
roles: {reference: lin}
colorspaces: [{name: lin}]
file_rules:
  - !<Rule> {name: exr, pattern: "*.exr", colorspace: lin}
  - !<Rule> {name: tif, extension: ".TIF", colorspace: tifcs}
  - !<Rule> {name: jpg, extension: "j*g", colorspace: jpgcs}
  - !<Rule> {name: plates, regex: "plates/.*[.]dpx$", colorspace: platecs}
  - !<Rule> {name: Default, colorspace: defcs}
"#;

#[test]
fn first_matching_rule_wins() {
    let c = Config::from_yaml_str(RULES_CONFIG, ".").unwrap();
    assert_eq!(c.file_rules().len(), 5);
    assert_eq!(c.colorspace_from_filepath("shot/a.exr"), Some("lin"));
    assert_eq!(c.colorspace_from_filepath("C:\\shots\\b.TIF"), Some("tifcs"));
    assert_eq!(c.colorspace_from_filepath("x.jpeg"), Some("jpgcs"));
    assert_eq!(c.colorspace_from_filepath("plates/c.dpx"), Some("platecs"));
    assert_eq!(c.colorspace_from_filepath("other.mov"), Some("defcs"));
    assert_eq!(c.colorspace_from_filepath("noext"), Some("defcs"));
}

#[test]
fn no_rules_and_broken_patterns() {
    let mut c = Config::new();
    assert_eq!(c.colorspace_from_filepath("a.exr"), None);
    c.add_file_rule(FileRule {
        name: "broken".to_string(),
        colorspace: "x".to_string(),
        kind: FileRuleKind::Basic { pattern: "[".to_string(), extension: None },
    });
    c.add_file_rule(FileRule { name: "Default".to_string(), colorspace: "d".to_string(), kind: FileRuleKind::Default });
    assert_eq!(c.colorspace_from_filepath("a.exr"), None);
    c.clear_file_rules();
    assert!(c.file_rules().is_empty());
    c.add_file_rule(FileRule {
        name: "ext".to_string(),
        colorspace: "x".to_string(),
        kind: FileRuleKind::Basic { pattern: String::new(), extension: Some("[".to_string()) },
    });
    assert_eq!(c.colorspace_from_filepath("a.exr"), None);
}

#[test]
fn path_helpers() {
    assert_eq!(normalize_path("a\\b\\c.exr"), "a/b/c.exr");
    assert_eq!(normalize_path("a/b"), "a/b");
    assert!(has_glob_chars("*.exr"));
    assert!(has_glob_chars("a[0-9]"));
    assert!(has_glob_chars("x?"));
    assert!(!has_glob_chars("plain.exr"));
}
