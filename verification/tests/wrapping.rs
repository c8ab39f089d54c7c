use tank_movement::player::TurretController;
use tank_movement::rotation::Rotation;
use tank_movement::tank_movement::{
    apply_screen_wrap, apply_tank_movement, ScreenWrap, TankMovementController, Viewport,
    WRAP_MARGIN,
};
use tank_movement::transform::Transform;
use tank_movement::world::{Entity, World};

fn east(_angle: u64) -> Rotation {
    Rotation::new(1_000_000, 0).unwrap()
}

fn marked(x: i64, y: i64) -> Entity {
    Entity {
        transform: Some(Transform { x, y, z: 1, angle: 42 }),
        tank: None,
        turret: None,
        screen_wrap: Some(ScreenWrap),
        parent: None,
    }
}

fn position(entity: &Entity) -> (i64, i64) {
    let transform = entity.transform.unwrap();
    (transform.x, transform.y)
}

// A viewport of 544 by 344 and the margin make a play field of 800 by 600.
const VIEW: Viewport = Viewport { width: 544, height: 344 };

#[test]
fn the_margin_is_part_of_the_play_field() {
    assert_eq!(WRAP_MARGIN, 256);
    let mut world = World { entities: vec![marked(399_999_999, 299_999_999)] };
    apply_screen_wrap(Some(Viewport { width: 544, height: 344 }), &mut world);
    assert_eq!(position(&world.entities[0]), (399_999_999, 299_999_999));
    apply_screen_wrap(Some(Viewport { width: 543, height: 343 }), &mut world);
    assert_eq!(position(&world.entities[0]), (-399_000_001, -299_000_001));
}

#[test]
fn leaving_by_the_right_edge_comes_back_on_the_left() {
    let hull = Entity {
        tank: Some(TankMovementController {
            forward_intent: 1,
            rotation_intent: 0,
            max_speed: 400,
            rotation_speed: 180_000,
        }),
        transform: Some(Transform { x: 405_000_000, y: 0, z: 0, angle: 0 }),
        ..marked(0, 0)
    };
    let mut world = World { entities: vec![hull] };
    // 400 units per second for 25 milliseconds: 10 units further.
    apply_tank_movement(25_000, &mut world, &east);
    assert_eq!(position(&world.entities[0]), (415_000_000, 0));
    apply_screen_wrap(Some(VIEW), &mut world);
    assert_eq!(position(&world.entities[0]), (-385_000_000, 0));
}

#[test]
fn each_axis_wraps_by_its_own_size() {
    let mut world = World {
        entities: vec![marked(350_000_000, 350_000_000), marked(-450_000_000, -250_000_000)],
    };
    apply_screen_wrap(Some(VIEW), &mut world);
    assert_eq!(position(&world.entities[0]), (350_000_000, -250_000_000));
    assert_eq!(position(&world.entities[1]), (350_000_000, -250_000_000));
}

#[test]
fn negative_positions_wrap_upward() {
    let mut world = World { entities: vec![marked(-401_000_000, -300_000_001)] };
    apply_screen_wrap(Some(VIEW), &mut world);
    assert_eq!(position(&world.entities[0]), (399_000_000, 299_999_999));
}

#[test]
fn wrapping_keeps_orientation_and_draw_order() {
    let mut world = World { entities: vec![marked(1_000_000_000, 0)] };
    apply_screen_wrap(Some(VIEW), &mut world);
    assert_eq!(
        world.entities[0].transform,
        Some(Transform { x: 200_000_000, y: 0, z: 1, angle: 42 })
    );
}

#[test]
fn wrapping_twice_is_wrapping_once() {
    let mut world = World { entities: vec![marked(i64::MAX, i64::MIN)] };
    apply_screen_wrap(Some(VIEW), &mut world);
    let once = world.entities.clone();
    apply_screen_wrap(Some(VIEW), &mut world);
    assert_eq!(world.entities, once);
}

#[test]
fn without_a_viewport_nothing_is_wrapped() {
    let far = vec![
        marked(i64::MAX, i64::MIN),
        marked(1_000_000_000, -1_000_000_000),
        marked(0, 0),
    ];
    let mut world = World { entities: far.clone() };
    apply_screen_wrap(None, &mut world);
    assert_eq!(world.entities, far);
}

#[test]
fn only_marked_entities_with_a_transform_wrap() {
    let unmarked = Entity { screen_wrap: None, ..marked(1_000_000_000, 0) };
    let nowhere = Entity { transform: None, ..marked(0, 0) };
    let carried = Entity {
        turret: Some(TurretController::default()),
        parent: Some(0),
        screen_wrap: None,
        ..marked(-1_000_000_000, 0)
    };
    let mut world = World { entities: vec![unmarked, nowhere, carried] };
    apply_screen_wrap(Some(VIEW), &mut world);
    assert_eq!(world.entities, vec![unmarked, nowhere, carried]);
}

#[test]
fn the_smallest_and_the_largest_viewport() {
    let mut world = World { entities: vec![marked(128_000_000, -128_000_001)] };
    apply_screen_wrap(Some(Viewport { width: 0, height: 0 }), &mut world);
    assert_eq!(position(&world.entities[0]), (-128_000_000, 127_999_999));

    let mut world = World { entities: vec![marked(i64::MAX, i64::MIN)] };
    apply_screen_wrap(Some(Viewport { width: u32::MAX, height: u32::MAX }), &mut world);
    let size: i128 = (u32::MAX as i128 + 256) * 1_000_000;
    let (x, y) = position(&world.entities[0]);
    assert_eq!(x as i128, (i64::MAX as i128 + size / 2).rem_euclid(size) - size / 2);
    assert_eq!(y as i128, (i64::MIN as i128 + size / 2).rem_euclid(size) - size / 2);
}

#[test]
fn transforms_wrap_by_themselves() {
    let mut transform = Transform { x: 415_000_000, y: -301_000_000, z: 5, angle: 9 };
    transform.wrap(800_000_000, 600_000_000);
    assert_eq!(transform, Transform { x: -385_000_000, y: 299_000_000, z: 5, angle: 9 });
}

#[test]
fn the_play_field_is_the_viewport_and_the_margin() {
    assert_eq!(tank_movement::tank_movement::domain_size(544), 800_000_000);
    assert_eq!(tank_movement::tank_movement::domain_size(0), 256_000_000);
    assert_eq!(
        tank_movement::tank_movement::domain_size(u32::MAX),
        4_294_967_551_000_000
    );
}
