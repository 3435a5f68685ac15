use vfx_ocio::colorspace::{ColorSpace, Encoding};
use vfx_ocio::config::Config;
use vfx_ocio::display::{Display, View};
use vfx_ocio::validate::{check, has_errors, has_warnings, Issue, IssueCategory, Severity};

#[test]
fn check_empty_config() {
    let config = Config::new();
    let issues = check(&config, &[]);

    // Should warn about missing roles and displays
    assert!(issues.iter().any(|i| i.category == IssueCategory::MissingRole));
    assert!(issues.iter().any(|i| i.category == IssueCategory::MissingDisplay));
}

#[test]
fn severity_display() {
    assert_eq!(Severity::Info.as_str(), "INFO");
    assert_eq!(Severity::Warning.as_str(), "WARN");
    assert_eq!(Severity::Error.as_str(), "ERROR");
}

#[test]
fn has_errors_check() {
    let issues = vec![Issue {
        severity: Severity::Warning,
        category: IssueCategory::MissingRole,
        message: "test".into(),
        context: None,
    }];
    assert!(!has_errors(&issues));
    assert!(has_warnings(&issues));

    let issues_with_error = vec![Issue {
        severity: Severity::Error,
        category: IssueCategory::MissingColorSpace,
        message: "test".into(),
        context: None,
    }];
    assert!(has_errors(&issues_with_error));
}

#[test]
fn info_is_neither_error_nor_warning() {
    let issues = vec![Issue {
        severity: Severity::Info,
        category: IssueCategory::UnusedColorSpace,
        message: "note".into(),
        context: None,
    }];
    assert!(!has_errors(&issues));
    assert!(!has_warnings(&issues));
    assert!(!has_errors(&[]));
}

#[test]
fn check_empty_config_messages() {
    let issues = check(&Config::new(), &[]);
    let msgs: Vec<&str> = issues.iter().map(|i| i.message.as_str()).collect();
    assert_eq!(
        msgs,
        vec![
            "recommended role 'reference' is not defined",
            "recommended role 'default' is not defined",
            "no displays defined",
        ]
    );
    assert_eq!(issues[0].context, Some("reference".to_string()));
    assert_eq!(issues[2].context, None);
}

#[test]
fn check_reports_each_kind() {
    let mut config = Config::new();
    config.add_colorspace(ColorSpace::builder("Lin").alias("lin2").build());
    config.add_colorspace(ColorSpace::builder("Lin").alias("Lin").build());
    config.add_colorspace(
        ColorSpace::builder("Raw").encoding(Encoding::Data).to_reference(vfx_ocio::yaml::YamlNode::Null).build(),
    );
    config.set_role("reference", "Lin");
    config.set_role("default", "Missing");
    let mut d = Display::new("Mon");
    d.add_view(View::new("V", "Nowhere"));
    config.add_display(d);
    config.add_display(Display::new("Empty"));
    config.add_search_path("/luts");
    config.add_search_path("/gone");

    let issues = check(&config, &[true, false]);
    let msgs: Vec<&str> = issues.iter().map(|i| i.message.as_str()).collect();
    assert_eq!(
        msgs,
        vec![
            "role 'default' references non-existent color space 'Missing'",
            "view 'V' in display 'Mon' references non-existent color space 'Nowhere'",
            "display 'Empty' has no views",
            "duplicate color space name: 'Lin'",
            "alias 'Lin' for 'Lin' conflicts with existing name",
            "data color space 'Raw' has transforms defined (will be ignored)",
            "search path does not exist: /gone",
        ]
    );
    assert_eq!(issues[0].severity, Severity::Error);
    assert_eq!(issues[1].context, Some("Mon:V".to_string()));
    assert_eq!(issues[1].category, IssueCategory::MissingColorSpace);
    assert_eq!(issues[3].category, IssueCategory::Duplicate);
    assert_eq!(issues[4].severity, Severity::Warning);
    assert_eq!(issues[5].category, IssueCategory::InvalidTransform);
    assert_eq!(issues[6].category, IssueCategory::MissingFile);
    assert!(has_errors(&issues));
}
