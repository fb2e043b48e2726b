use lve_rs::controller::{Key, KeyMappings, KeyboardMovementController, Motion, Steps};
use lve_rs::extras::{create_circle_model, serpinski, serpinski_triangle, DiscPoint, Point};
use lve_rs::systems::{aligned_offset, light_slots, MAX_LIGHT};

fn mid(a: Point, b: Point) -> Point {
    Point::Mid(Box::new(a), Box::new(b))
}

fn show(point: &Point) -> String {
    match point {
        Point::Top => "T".to_string(),
        Point::Right => "R".to_string(),
        Point::Left => "L".to_string(),
        Point::Mid(a, b) => format!("({}{})", show(a), show(b)),
    }
}

fn shown(points: &[Point]) -> Vec<String> {
    points.iter().map(show).collect()
}

fn weights(point: &Point) -> (f64, f64, f64) {
    match point {
        Point::Top => (1.0, 0.0, 0.0),
        Point::Right => (0.0, 1.0, 0.0),
        Point::Left => (0.0, 0.0, 1.0),
        Point::Mid(a, b) => {
            let (a, b) = (weights(a), weights(b));
            (0.5 * (a.0 + b.0), 0.5 * (a.1 + b.1), 0.5 * (a.2 + b.2))
        }
    }
}

#[test]
fn depth_zero_is_the_triangle_itself() {
    let vertices = serpinski(&Point::Top, &Point::Right, &Point::Left, 0);
    assert_eq!(shown(&vertices), vec!["T", "R", "L"]);
}

#[test]
fn depth_one_is_the_three_corner_triangles() {
    let vertices = serpinski(&Point::Top, &Point::Right, &Point::Left, 1);
    assert_eq!(
        shown(&vertices),
        vec!["(LT)", "(RL)", "L", "(TR)", "R", "(RL)", "T", "(TR)", "(LT)"]
    );
}

#[test]
fn subdivision_starts_from_any_triangle() {
    let top = mid(Point::Top, Point::Right);
    let vertices = serpinski(&top, &Point::Right, &Point::Left, 1);
    assert_eq!(show(&vertices[0]), "(L(TR))");
    assert_eq!(show(&vertices[3]), "((TR)R)");
    assert_eq!(show(&vertices[6]), "(TR)");
}

#[test]
fn each_level_triples_the_triangles() {
    let mut expected = 3;
    for depth in 0..6 {
        let vertices = serpinski(&Point::Top, &Point::Right, &Point::Left, depth);
        assert_eq!(vertices.len(), expected);
        expected *= 3;
    }
}

#[test]
fn subdivided_points_stay_on_the_triangle() {
    let vertices = serpinski(&Point::Top, &Point::Right, &Point::Left, 4);
    for point in vertices.iter() {
        let (t, r, l) = weights(point);
        assert_eq!(t + r + l, 1.0);
        assert!(t >= 0.0 && r >= 0.0 && l >= 0.0);
        assert_eq!(t * 16.0, (t * 16.0).round());
    }
    assert_eq!(weights(&vertices[0]), (1.0 / 16.0, 0.0, 15.0 / 16.0));
}

#[test]
fn triangles_are_appended_to_what_is_there() {
    let mut vertices = vec![Point::Left];
    serpinski_triangle(&mut vertices, &Point::Top, &Point::Right, &Point::Left, 0);
    serpinski_triangle(&mut vertices, &Point::Right, &Point::Left, &Point::Top, 0);
    assert_eq!(shown(&vertices), vec!["L", "T", "R", "L", "R", "L", "T"]);
    assert_eq!(show(&Point::Top.halfway(&Point::Left)), "(TL)");
    assert_eq!(show(&mid(Point::Top, Point::Left).duplicate()), "(TL)");
}

#[test]
fn disc_is_a_fan_around_the_centre() {
    assert_eq!(
        create_circle_model(4),
        vec![
            DiscPoint::Rim(0),
            DiscPoint::Rim(1),
            DiscPoint::Centre,
            DiscPoint::Rim(1),
            DiscPoint::Rim(2),
            DiscPoint::Centre,
            DiscPoint::Rim(2),
            DiscPoint::Rim(3),
            DiscPoint::Centre,
            DiscPoint::Rim(3),
            DiscPoint::Rim(0),
            DiscPoint::Centre,
        ]
    );
}

#[test]
fn disc_of_few_sides() {
    assert!(create_circle_model(0).is_empty());
    assert_eq!(
        create_circle_model(1),
        vec![DiscPoint::Rim(0), DiscPoint::Rim(0), DiscPoint::Centre]
    );
    assert_eq!(create_circle_model(64).len(), 192);
    assert_eq!(create_circle_model(64)[190], DiscPoint::Rim(0));
}

#[test]
fn push_constants_start_on_multiples_of_sixteen() {
    assert_eq!(aligned_offset(0), 0);
    assert_eq!(aligned_offset(1), 16);
    assert_eq!(aligned_offset(15), 16);
    assert_eq!(aligned_offset(16), 16);
    assert_eq!(aligned_offset(17), 32);
    assert_eq!(aligned_offset(64), 64);
    assert_eq!(aligned_offset(u32::MAX - 15), u32::MAX - 15);
}

#[test]
fn lights_are_numbered_in_order() {
    let (slots, count) = light_slots(&vec![false, true, true, false, true]);
    assert_eq!(slots, vec![None, Some(0), Some(1), None, Some(2)]);
    assert_eq!(count, 3);
    assert_eq!(light_slots(&Vec::new()), (Vec::new(), 0));
    let (slots, count) = light_slots(&vec![true; MAX_LIGHT]);
    assert_eq!(count, 10);
    assert_eq!(slots[9], Some(9));
}

fn at_rest() -> Motion {
    Motion { look: Steps { x: 0, y: 0, z: 0 }, forward: 0, right: 0, up: 0 }
}

#[test]
fn default_mapping_is_wasd_and_arrows() {
    let keys = KeyMappings::default();
    assert_eq!(keys.move_left, Key::A);
    assert_eq!(keys.move_right, Key::D);
    assert_eq!(keys.move_forward, Key::W);
    assert_eq!(keys.move_back, Key::S);
    assert_eq!(keys.move_up, Key::E);
    assert_eq!(keys.move_down, Key::Q);
    assert_eq!(keys.look_left, Key::Left);
    assert_eq!(keys.look_right, Key::Right);
    assert_eq!(keys.look_up, Key::Up);
    assert_eq!(keys.look_down, Key::Down);
    assert_eq!(KeyboardMovementController::new().keys, keys);
    assert_eq!(KeyboardMovementController::default().keys, keys);
}

#[test]
fn no_key_asks_for_nothing() {
    let controller = KeyboardMovementController::new();
    assert_eq!(controller.move_in_plane_xz(&Vec::new()), None);
    assert_eq!(controller.move_in_plane_xz(&vec![None, None]), None);
}

#[test]
fn unmapped_key_asks_for_no_motion() {
    let controller = KeyboardMovementController::new();
    assert_eq!(controller.move_in_plane_xz(&vec![None, Some(Key::Other(99))]), Some(at_rest()));
}

#[test]
fn keys_turn_and_move() {
    let controller = KeyboardMovementController::new();
    let keys = vec![Some(Key::W), None, Some(Key::Right), Some(Key::Q), Some(Key::A)];
    assert_eq!(
        controller.move_in_plane_xz(&keys),
        Some(Motion { look: Steps { x: 0, y: 1, z: 0 }, forward: 1, right: -1, up: -1 })
    );
    let keys = vec![Some(Key::Up), Some(Key::Left), Some(Key::S), Some(Key::D), Some(Key::E)];
    assert_eq!(
        controller.move_in_plane_xz(&keys),
        Some(Motion { look: Steps { x: 1, y: -1, z: 0 }, forward: -1, right: 1, up: 1 })
    );
    assert_eq!(
        controller.move_in_plane_xz(&vec![Some(Key::Down)]),
        Some(Motion { look: Steps { x: -1, y: 0, z: 0 }, forward: 0, right: 0, up: 0 })
    );
}

#[test]
fn opposing_keys_cancel() {
    let controller = KeyboardMovementController::new();
    let keys = vec![Some(Key::W), Some(Key::S), Some(Key::Left), Some(Key::Right)];
    assert_eq!(controller.move_in_plane_xz(&keys), Some(at_rest()));
}

#[test]
fn mapping_can_be_changed() {
    let mut controller = KeyboardMovementController::new();
    controller.keys.move_forward = Key::Other(7);
    let keys = vec![Some(Key::W), Some(Key::Other(7))];
    assert_eq!(
        controller.move_in_plane_xz(&keys),
        Some(Motion { look: Steps { x: 0, y: 0, z: 0 }, forward: 1, right: 0, up: 0 })
    );
}
