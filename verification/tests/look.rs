use vfx_ocio::look::{parse_looks, Look, LookManager};

#[test]
fn build_look() {
    let look = Look::new("Film Grade").process_space("ACEScct").description("Main film look");

    assert_eq!(look.name(), "Film Grade");
    assert_eq!(look.get_process_space(), Some("ACEScct"));
}

#[test]
fn look_manager() {
    let mut mgr = LookManager::new();
    mgr.add(Look::new("Look A"));
    mgr.add(Look::new("Look B"));

    assert_eq!(mgr.len(), 2);
    assert!(mgr.get("look a").is_some());
}

#[test]
fn parse_looks_single() {
    let looks = parse_looks("ShowLUT");
    assert_eq!(looks, vec![("ShowLUT", true)]);
}

#[test]
fn parse_looks_multiple() {
    let looks = parse_looks("ShowLUT, ShotGrade, Burnin");
    assert_eq!(looks.len(), 3);
    assert_eq!(looks[0], ("ShowLUT", true));
    assert_eq!(looks[1], ("ShotGrade", true));
}

#[test]
fn parse_looks_with_direction() {
    let looks = parse_looks("+Forward, -Inverse");
    assert_eq!(looks[0], ("Forward", true));
    assert_eq!(looks[1], ("Inverse", false));
}

#[test]
fn parse_looks_skips_blank_entries_and_trims() {
    assert_eq!(parse_looks(""), Vec::<(&str, bool)>::new());
    assert_eq!(parse_looks(" , ,"), Vec::<(&str, bool)>::new());
    assert_eq!(parse_looks("  - Grade  ,,+ Show "), vec![("Grade", false), ("Show", true)]);
}

#[test]
fn look_manager_order_and_inverse() {
    let mut mgr = LookManager::new();
    assert!(mgr.is_empty());
    mgr.add(Look::new("B").description("second"));
    mgr.add(Look::new("A"));
    mgr.add(Look::new("b"));
    assert_eq!(mgr.names(), vec!["B", "A", "b"]);
    assert_eq!(mgr.get("b").unwrap().get_description(), "second");
    assert!(mgr.get("C").is_none());
    assert_eq!(mgr.all().len(), 3);
    assert!(!Look::new("x").has_inverse());
    assert_eq!(Look::new("x").get_process_space(), None);
}
