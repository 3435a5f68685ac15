use vfx_ocio::colorspace::{ColorSpace, Encoding, Family};
use vfx_ocio::config::{Config, FileRule, FileRuleKind};
use vfx_ocio::display::{Display, View};
use vfx_ocio::look::Look;

#[test]
fn raw_config_text() {
    let text = Config::create_raw().serialize().unwrap();
    assert_eq!(
        text,
        "ocio_profile_version: 2.0\n\nname: Raw Config\n\nroles:\n  reference: Raw\n  data: Raw\n  default: Raw\n\n\ncolorspaces:\n  - !<ColorSpace>\n    name: Raw\n    description: Raw data bypass - no color processing\n    family: Utility\n    encoding: data\n    isdata: true\n"
    );
}

#[test]
fn full_config_text_and_reading_it_back() {
    let mut c = Config::new();
    c.set_version(2, 1);
    c.set_name("Studio");
    c.add_search_path("luts");
    c.add_search_path("/abs");
    c.add_colorspace(ColorSpace::builder("Lin").family(Family::Scene).encoding(Encoding::SceneLinear).alias("linear").alias("l").build());
    c.add_colorspace(ColorSpace::new("sRGB"));
    c.set_role("reference", "Lin");
    let mut d = Display::new("Mon");
    d.add_view(View::new("Film", "sRGB").with_look("Grade"));
    d.add_view(View::new("Raw", "Lin").with_look(""));
    c.add_display(d);
    c.set_active_displays(vec!["Mon".to_string()]);
    c.set_active_views(vec!["Film".to_string(), "Raw".to_string()]);
    c.add_look(Look::new("Grade").process_space("Lin").description("grade"));
    c.add_file_rule(FileRule {
        name: "exr".to_string(),
        colorspace: "Lin".to_string(),
        kind: FileRuleKind::Basic { pattern: "*.exr".to_string(), extension: Some("exr".to_string()) },
    });
    c.add_file_rule(FileRule { name: "re".to_string(), colorspace: "Lin".to_string(), kind: FileRuleKind::Regex { regex: "a+".to_string() } });
    c.add_file_rule(FileRule { name: "Default".to_string(), colorspace: "sRGB".to_string(), kind: FileRuleKind::Default });
    let text = c.serialize().unwrap();
    let expected = "ocio_profile_version: 2.0\n\nname: Studio\nsearch_path: luts:/abs\n\n\
roles:\n  reference: Lin\n\n\
file_rules:\n  - !<Rule> {name: exr, pattern: \"*.exr\", extension: exr, colorspace: Lin}\n  - !<Rule> {name: re, regex: \"a+\", colorspace: Lin}\n  - !<Rule> {name: Default, colorspace: sRGB}\n\n\
displays:\n  Mon:\n    - !<View> {name: Film, colorspace: sRGB, looks: Grade}\n    - !<View> {name: Raw, colorspace: Lin}\n\n\
active_displays: [Mon]\nactive_views: [Film, Raw]\n\n\
looks:\n  - !<Look>\n    name: Grade\n    process_space: Lin\n    description: grade\n\n\
colorspaces:\n  - !<ColorSpace>\n    name: Lin\n    family: Scene\n    encoding: scene-linear\n    aliases: [linear, l]\n  - !<ColorSpace>\n    name: sRGB\n";
    assert_eq!(text, expected);

    let back = Config::from_yaml_str(&text, "/cfg").unwrap();
    assert_eq!(back.name(), "Studio");
    assert_eq!(back.colorspace_names(), vec!["Lin", "sRGB"]);
    assert_eq!(back.colorspace("linear").unwrap().name(), "Lin");
    assert_eq!(back.roles().get("reference"), Some("Lin"));
    assert_eq!(back.file_rules().len(), 3);
    assert_eq!(back.colorspace_from_filepath("x.exr"), Some("Lin"));
    assert_eq!(back.displays().display("Mon").unwrap().views().len(), 2);
    assert_eq!(back.look("Grade").unwrap().get_description(), "grade");
    assert_eq!(back.search_paths(), &["/cfg/luts".to_string(), "/abs".to_string()]);
    assert!(back.validate().is_empty());
}
