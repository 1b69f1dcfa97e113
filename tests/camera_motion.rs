use scene_core::camera::{
    Axis3, Basis, Camera, Direction, Point3, INITIAL_YAW, PITCH_LIMIT, SENSITIVITY,
};
use scene_core::input::MoveKeys;

const ONE: i32 = 1_000_000;

fn rest_basis() -> Basis {
    Basis {
        direction: Axis3 { x: 0, y: 0, z: -ONE },
        right: Axis3 { x: -ONE, y: 0, z: 0 },
        up: Axis3 { x: 0, y: ONE, z: 0 },
    }
}

fn origin() -> Point3 {
    Point3 { x: 0, y: 0, z: 0 }
}

fn to_radians(angle: i64) -> f64 {
    angle as f64 * std::f64::consts::TAU / 4294967296.0
}

#[test]
fn new_camera_looks_down_negative_z() {
    let mut camera = Camera::new(origin());
    camera.process_mouse(0, 0);
    assert_eq!(camera.yaw(), INITIAL_YAW);
    assert_eq!(camera.pitch(), 0);
    assert_eq!(camera.position(), origin());
    let yaw = to_radians(camera.yaw() as i64);
    let pitch = to_radians(camera.pitch() as i64);
    let direction = [yaw.cos() * pitch.cos(), pitch.sin(), yaw.sin() * pitch.cos()];
    assert!((direction[0] - 0.0).abs() < 1e-5);
    assert!((direction[1] - 0.0).abs() < 1e-5);
    assert!((direction[2] + 1.0).abs() < 1e-5);
}

#[test]
fn look_turns_by_sensitivity() {
    let mut camera = Camera::new(origin());
    camera.process_mouse(1, 0);
    assert_eq!(camera.yaw(), INITIAL_YAW + SENSITIVITY as u32);
    assert_eq!(camera.pitch(), 0);
    camera.process_mouse(0, 10);
    assert_eq!(camera.pitch(), -13_671_310);
    camera.process_mouse(0, -20);
    assert_eq!(camera.pitch(), 13_671_310);
}

#[test]
fn yaw_wraps_around_a_full_turn() {
    let mut camera = Camera::new(origin());
    camera.process_mouse(1000, 0);
    assert_eq!(camera.yaw(), 293_389_176);
    camera.process_mouse(-1000, 0);
    assert_eq!(camera.yaw(), INITIAL_YAW);
}

#[test]
fn huge_look_delta_keeps_pitch_in_range() {
    let mut camera = Camera::new(origin());
    camera.process_mouse(0, i32::MIN);
    assert_eq!(camera.pitch(), PITCH_LIMIT);
    camera.process_mouse(0, i32::MAX);
    assert_eq!(camera.pitch(), -PITCH_LIMIT);
    for _ in 0..100 {
        camera.process_mouse(0, -1_000_000);
    }
    assert_eq!(camera.pitch(), PITCH_LIMIT);
    let degrees = to_radians(camera.pitch() as i64).to_degrees();
    assert!(degrees < 89.9 && degrees > 89.89);
}

#[test]
fn forward_moves_along_direction() {
    let mut camera = Camera::new(origin());
    camera.process_keyboard(Direction::Forward, &rest_basis(), 1_000_000);
    assert_eq!(camera.position(), Point3 { x: 0, y: 0, z: -2_500_000 });
}

#[test]
fn left_adds_right_and_right_subtracts_it() {
    let basis = rest_basis();
    let mut camera = Camera::new(origin());
    camera.process_keyboard(Direction::Left, &basis, 400_000);
    assert_eq!(camera.position(), Point3 { x: -1_000_000, y: 0, z: 0 });
    camera.process_keyboard(Direction::Right, &basis, 800_000);
    assert_eq!(camera.position(), Point3 { x: 1_000_000, y: 0, z: 0 });
    camera.process_keyboard(Direction::Down, &basis, 400_000);
    assert_eq!(camera.position(), Point3 { x: 1_000_000, y: -1_000_000, z: 0 });
}

#[test]
fn travel_rounds_toward_zero() {
    let basis = Basis {
        direction: Axis3 { x: 333_333, y: -333_333, z: 1 },
        right: Axis3 { x: 0, y: 0, z: 0 },
        up: Axis3 { x: 0, y: 0, z: 0 },
    };
    let mut camera = Camera::new(origin());
    camera.process_keyboard(Direction::Forward, &basis, 16_667);
    // 333_333 * 2_500_000 * 16_667 / 10^12 = 13_889.15...
    assert_eq!(camera.position(), Point3 { x: 13_889, y: -13_889, z: 0 });
}

#[test]
fn forward_then_backward_returns() {
    let basis = Basis {
        direction: Axis3 { x: 577_350, y: -577_350, z: 577_350 },
        right: Axis3 { x: 707_107, y: 0, z: -707_107 },
        up: Axis3 { x: 408_248, y: 816_497, z: 408_248 },
    };
    let start = Point3 { x: 123_456_789, y: -42, z: 7 };
    let mut camera = Camera::new(start);
    camera.process_keyboard(Direction::Forward, &basis, 16_667);
    assert_ne!(camera.position(), start);
    camera.process_keyboard(Direction::Backward, &basis, 16_667);
    assert_eq!(camera.position(), start);
    camera.process_keyboard(Direction::Up, &basis, 33_000);
    camera.process_keyboard(Direction::Down, &basis, 33_000);
    assert_eq!(camera.position(), start);
}

#[test]
fn movement_saturates_at_the_coordinate_limit() {
    let mut camera = Camera::new(Point3 { x: 0, y: i64::MAX - 1, z: i64::MIN + 1 });
    camera.process_keyboard(Direction::Up, &rest_basis(), 1_000_000);
    assert_eq!(camera.position().y, i64::MAX);
    camera.process_keyboard(Direction::Forward, &rest_basis(), 1_000_000);
    assert_eq!(camera.position().z, i64::MIN);
}

#[test]
fn held_keys_compose_without_normalising() {
    let mut keys = MoveKeys::new();
    keys.set(Direction::Forward, true);
    keys.set(Direction::Left, true);
    keys.set(Direction::Up, true);
    keys.set(Direction::Up, false);
    assert_eq!(keys.held(), vec![Direction::Forward, Direction::Left]);
    assert!(keys.is_held(Direction::Left));
    assert!(!keys.is_held(Direction::Up));
    let mut camera = Camera::new(origin());
    camera.apply_moves(&keys, &rest_basis(), 1_000_000);
    assert_eq!(camera.position(), Point3 { x: -2_500_000, y: 0, z: -2_500_000 });
    assert_eq!(camera.yaw(), INITIAL_YAW);
}

#[test]
fn no_keys_no_motion() {
    let keys = MoveKeys::new();
    assert!(keys.held().is_empty());
    let mut camera = Camera::new(origin());
    camera.apply_moves(&keys, &rest_basis(), 1_000_000);
    assert_eq!(camera.position(), origin());
}

#[test]
fn all_held_keys_in_fixed_order() {
    let mut keys = MoveKeys::new();
    keys.set(Direction::Down, true);
    keys.set(Direction::Right, true);
    keys.set(Direction::Backward, true);
    keys.set(Direction::Up, true);
    keys.set(Direction::Left, true);
    keys.set(Direction::Forward, true);
    assert_eq!(
        keys.held(),
        vec![
            Direction::Forward,
            Direction::Backward,
            Direction::Left,
            Direction::Right,
            Direction::Up,
            Direction::Down
        ]
    );
    let mut camera = Camera::new(origin());
    camera.apply_moves(&keys, &rest_basis(), 1_000_000);
    assert_eq!(camera.position(), origin());
}

fn basis_at(yaw: f32, pitch: f32) -> [[f32; 3]; 3] {
    let d = [yaw.cos() * pitch.cos(), pitch.sin(), yaw.sin() * pitch.cos()];
    let n = (d[0] * d[0] + d[1] * d[1] + d[2] * d[2]).sqrt();
    let d = [d[0] / n, d[1] / n, d[2] / n];
    // cross(world_up, d) with world_up = (0, 1, 0)
    let r = [d[2], 0.0, -d[0]];
    let n = (r[0] * r[0] + r[2] * r[2]).sqrt();
    let r = [r[0] / n, 0.0, r[2] / n];
    let u = [d[1] * r[2] - d[2] * r[1], d[2] * r[0] - d[0] * r[2], d[0] * r[1] - d[1] * r[0]];
    [d, r, u]
}

fn dot(a: [f32; 3], b: [f32; 3]) -> f32 {
    a[0] * b[0] + a[1] * b[1] + a[2] * b[2]
}

#[test]
fn basis_is_orthonormal_up_to_the_clamp() {
    let mut camera = Camera::new(origin());
    for (dx, dy) in [(0, 0), (37, -5), (-900, 400), (12_345, -1_000_000), (1, 1_000_000), (-77, 3)] {
        camera.process_mouse(dx, dy);
        let [d, r, u] = basis_at(
            to_radians(camera.yaw() as i64) as f32,
            to_radians(camera.pitch() as i64) as f32,
        );
        for v in [d, r, u] {
            assert!((dot(v, v) - 1.0).abs() < 1e-5);
        }
        assert!(dot(d, r).abs() < 1e-5);
        assert!(dot(d, u).abs() < 1e-5);
        assert!(dot(r, u).abs() < 1e-5);
    }
}
