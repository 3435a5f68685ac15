use vfx_ocio::transform::TransformDirection;

#[test]
fn direction_inverse() {
    assert_eq!(TransformDirection::Forward.inverse(), TransformDirection::Inverse);
    assert_eq!(TransformDirection::Inverse.inverse(), TransformDirection::Forward);
}

#[test]
fn direction_inverse_twice_is_identity() {
    for d in [TransformDirection::Forward, TransformDirection::Inverse] {
        assert_eq!(d.inverse().inverse(), d);
    }
}
