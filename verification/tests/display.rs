use vfx_ocio::display::{Display, DisplayManager, View, ViewTransform};

#[test]
fn build_display() {
    let mut display = Display::new("sRGB Monitor");
    display.add_view(View::new("Film", "sRGB"));
    display.add_view(View::new("Raw", "Raw"));

    assert_eq!(display.name(), "sRGB Monitor");
    assert_eq!(display.views().len(), 2);
    assert_eq!(display.default_view(), Some("Film"));
}

#[test]
fn view_with_look() {
    let view = View::new("Graded", "sRGB").with_look("Show LUT");

    assert_eq!(view.looks(), Some("Show LUT"));
}

#[test]
fn display_manager() {
    let mut mgr = DisplayManager::new();

    let mut srgb = Display::new("sRGB");
    srgb.add_view(View::new("Film", "sRGB"));
    mgr.add_display(srgb);

    let mut rec709 = Display::new("Rec.709");
    rec709.add_view(View::new("Video", "Rec709"));
    mgr.add_display(rec709);

    assert_eq!(mgr.displays().len(), 2);
    assert_eq!(mgr.default_display(), Some("sRGB"));
    assert!(mgr.display("rec.709").is_some());
}

#[test]
fn view_builders_and_lookup() {
    let v = View::new("Film", "sRGB")
        .with_view_transform("ACES SDR")
        .with_rule("scene")
        .with_description("Film view");
    assert_eq!(v.name(), "Film");
    assert_eq!(v.colorspace(), "sRGB");
    assert_eq!(v.looks(), None);
    assert_eq!(v.view_transform(), Some("ACES SDR"));
    assert_eq!(v.rule(), Some("scene"));
    assert_eq!(v.description(), "Film view");

    let mut d = Display::new("Monitor");
    d.add_view(v);
    d.add_view(View::new("Raw", "Raw"));
    assert_eq!(d.view("FILM").map(|x| x.colorspace()), Some("sRGB"));
    assert!(d.view("Video").is_none());
    assert_eq!(d.view_names(), vec!["Film", "Raw"]);
    d.set_default_view("Raw");
    assert_eq!(d.default_view(), Some("Raw"));
}

#[test]
fn manager_add_view_and_remove_display() {
    let mut mgr = DisplayManager::new();
    mgr.add_display(Display::new("A"));
    mgr.add_display(Display::new("B"));
    mgr.add_display(Display::new("a"));
    mgr.add_view("b", View::new("V", "cs"));
    assert_eq!(mgr.display("B").unwrap().views().len(), 1);
    assert_eq!(mgr.display("B").unwrap().default_view(), Some("V"));
    mgr.add_view("missing", View::new("W", "cs"));
    mgr.remove_display("A");
    assert_eq!(mgr.display_names(), vec!["B"]);
    assert_eq!(mgr.default_display(), Some("A"));
    mgr.set_default_display("B");
    assert_eq!(mgr.default_display(), Some("B"));
}

#[test]
fn view_transforms_by_name() {
    let mut mgr = DisplayManager::new();
    mgr.add_view_transform(ViewTransform::new("ACES SDR").with_family("aces").with_description("tone map"));
    let vt = mgr.view_transform("aces sdr").unwrap();
    assert_eq!(vt.name(), "ACES SDR");
    assert_eq!(vt.family(), "aces");
    assert_eq!(vt.description(), "tone map");
    assert!(vt.from_scene_reference().is_none());
    assert!(mgr.view_transform("other").is_none());
    assert_eq!(mgr.view_transforms().len(), 1);
}

#[test]
fn display_changed_in_place() {
    let mut dm = DisplayManager::new();
    dm.add_display(Display::new("sRGB"));
    dm.add_display(Display::new("P3"));
    match dm.display_mut("p3") {
        Some(d) => d.add_view(View::new("Film", "P3-D65")),
        None => panic!("display P3 not found"),
    }
    assert_eq!(dm.display("P3").unwrap().views().len(), 1);
    assert_eq!(dm.display("sRGB").unwrap().views().len(), 0);
    assert!(dm.display_mut("Rec.2020").is_none());
}
