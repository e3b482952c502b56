use pathfinder_demo::camera::{Axis, Camera, Mode, Sign, Velocity, View};

fn at_rest(eye_count: usize) -> Camera {
    Camera::ThreeD { velocity: Velocity { x: Sign::Zero, z: Sign::Zero }, eye_count }
}

#[test]
fn modes_have_one_viewport_or_two() {
    assert_eq!(Mode::TwoD.viewport_count(), 1);
    assert_eq!(Mode::ThreeD.viewport_count(), 1);
    assert_eq!(Mode::VR.viewport_count(), 2);
}

#[test]
fn only_stereo_has_a_view_for_each_eye() {
    assert_eq!(Mode::TwoD.view(0), View::Mono);
    assert_eq!(Mode::ThreeD.view(1), View::Mono);
    assert_eq!(Mode::VR.view(0), View::Stereo(0));
    assert_eq!(Mode::VR.view(1), View::Stereo(1));
}

#[test]
fn new_camera_is_at_rest_in_its_mode() {
    assert_eq!(Camera::new(Mode::TwoD), Camera::TwoD);
    assert_eq!(Camera::new(Mode::ThreeD), at_rest(1));
    assert_eq!(Camera::new(Mode::VR), at_rest(2));
    for mode in [Mode::TwoD, Mode::ThreeD, Mode::VR] {
        assert_eq!(Camera::new(mode).mode(), mode);
        assert!(!Camera::new(mode).integrate_velocity());
    }
}

#[test]
fn stereo_is_a_camera_in_space_with_more_than_one_eye() {
    assert_eq!(at_rest(1).mode(), Mode::ThreeD);
    assert_eq!(at_rest(2).mode(), Mode::VR);
    assert_eq!(at_rest(5).mode(), Mode::VR);
    assert!(at_rest(1).is_3d());
    assert!(at_rest(2).is_3d());
    assert!(!Camera::TwoD.is_3d());
}

#[test]
fn velocity_axis_is_set_and_cleared() {
    let mut camera = Camera::new(Mode::ThreeD);
    assert!(camera.set_velocity_axis(Axis::Z, Sign::Negative));
    assert_eq!(camera.velocity(), Velocity { x: Sign::Zero, z: Sign::Negative });
    assert!(camera.integrate_velocity());
    assert!(camera.set_velocity_axis(Axis::X, Sign::Positive));
    assert_eq!(camera.velocity(), Velocity { x: Sign::Positive, z: Sign::Negative });
    assert!(camera.clear_velocity_axis(Axis::Z));
    assert_eq!(camera.velocity(), Velocity { x: Sign::Positive, z: Sign::Zero });
    assert!(camera.integrate_velocity());
    assert!(camera.clear_velocity_axis(Axis::X));
    assert_eq!(camera.velocity(), Velocity { x: Sign::Zero, z: Sign::Zero });
    assert!(!camera.integrate_velocity());
}

#[test]
fn later_direction_replaces_earlier_one() {
    let mut camera = Camera::new(Mode::VR);
    camera.set_velocity_axis(Axis::Z, Sign::Negative);
    camera.set_velocity_axis(Axis::Z, Sign::Positive);
    assert_eq!(camera.velocity().z, Sign::Positive);
    assert_eq!(camera.mode(), Mode::VR);
}

#[test]
fn flat_camera_does_not_travel() {
    let mut camera = Camera::TwoD;
    assert!(!camera.set_velocity_axis(Axis::X, Sign::Positive));
    assert!(!camera.clear_velocity_axis(Axis::X));
    assert_eq!(camera, Camera::TwoD);
    assert_eq!(camera.velocity(), Velocity { x: Sign::Zero, z: Sign::Zero });
    assert!(!camera.integrate_velocity());
}

#[test]
fn eyes_are_replaced_in_space_only_and_never_by_none() {
    let mut camera = Camera::new(Mode::ThreeD);
    camera.set_velocity_axis(Axis::X, Sign::Negative);
    assert!(camera.set_eye_count(2));
    assert_eq!(camera.mode(), Mode::VR);
    assert_eq!(camera.velocity().x, Sign::Negative);
    assert!(!camera.set_eye_count(0));
    assert_eq!(camera.mode(), Mode::VR);
    assert!(camera.set_eye_count(1));
    assert_eq!(camera.mode(), Mode::ThreeD);
    let mut flat = Camera::TwoD;
    assert!(!flat.set_eye_count(2));
    assert_eq!(flat, Camera::TwoD);
}
