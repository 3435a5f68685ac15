use vfx_ocio::role::Roles;

#[test]
fn define_and_get() {
    let mut roles = Roles::new();
    roles.define("scene_linear", "ACEScg");
    roles.define("reference", "ACES2065-1");

    assert_eq!(roles.get("scene_linear"), Some("ACEScg"));
    assert_eq!(roles.get("reference"), Some("ACES2065-1"));
    assert_eq!(roles.get("unknown"), None);
}

#[test]
fn has_reference() {
    let mut roles = Roles::new();
    assert!(!roles.has_reference());

    roles.define("reference", "Linear");
    assert!(roles.has_reference());
}

#[test]
fn iterate_roles() {
    let mut roles = Roles::new();
    roles.define("a", "A");
    roles.define("b", "B");

    let pairs: Vec<_> = roles.iter().collect();
    assert_eq!(pairs.len(), 2);
}

#[test]
fn redefining_a_role_keeps_its_place() {
    let mut roles = Roles::new();
    assert!(roles.is_empty());
    roles.define("a", "A");
    roles.define("b", "B");
    roles.define("a", "A2");
    assert_eq!(roles.len(), 2);
    assert_eq!(roles.pairs(), vec![("a", "A2"), ("b", "B")]);
    assert!(roles.contains("b"));
    assert!(!roles.contains("B"));
}

#[test]
fn standard_role_accessors() {
    let mut roles = Roles::new();
    roles.define("scene_linear", "ACEScg");
    roles.define("data", "Raw");
    roles.define("default", "sRGB");
    assert_eq!(roles.scene_linear(), Some("ACEScg"));
    assert_eq!(roles.data(), Some("Raw"));
    assert_eq!(roles.default_input(), Some("sRGB"));
    assert_eq!(roles.reference(), None);
}
