use infinite_escape_velocity::collision_component::CollisionComponent;
use infinite_escape_velocity::motion_component::{Coordinates, MotionComponent, Velocity};
use infinite_escape_velocity::scalar::Scalar;
use infinite_escape_velocity::shape::{CircleData, Location, PointData, Shape};
use infinite_escape_velocity::unique_object::{GameObject, ObjectType, ShipData};
use infinite_escape_velocity::unique_object_storage::UniqueObjectStorage;

fn scalar(value: f32) -> Scalar {
    Scalar::from_bits(value.to_bits())
}

fn at(x: f32, y: f32) -> Location {
    Location { x: scalar(x), y: scalar(y) }
}

fn motion(x: f32, y: f32) -> MotionComponent {
    MotionComponent::new(
        Coordinates {
            location: at(x, y),
            velocity: Velocity { x: scalar(3.0), y: scalar(4.0) },
            rotation: scalar(0.25),
            angular_velocity: scalar(0.5),
        },
        scalar(90.0),
    )
}

fn ship(id: u32) -> GameObject {
    GameObject::new(id, ObjectType::Ship(ShipData { hull: 7 }), Some(motion(1.0, 2.0)), None)
}

fn viewport(id: u32) -> GameObject {
    let circle = Shape::Circle(CircleData { location: at(0.0, 0.0), radius: scalar(50.0) });
    GameObject::new(id, ObjectType::Viewport, None, Some(CollisionComponent::new(circle)))
}

#[test]
fn new_registry_is_empty() {
    let registry = UniqueObjectStorage::new();
    assert_eq!(registry.len(), 0);
    assert!(registry.all_objects().is_empty());
    assert_eq!(registry.get_by_id(0), None);
    assert!(!registry.contains(0));
}

#[test]
fn insert_then_get_by_id_finds_the_object() {
    let mut registry = UniqueObjectStorage::new();
    assert!(registry.insert(ship(4)));
    assert!(registry.insert(viewport(9)));
    assert_eq!(registry.len(), 2);
    assert_eq!(registry.get_by_id(4), Some(ship(4)));
    assert_eq!(registry.get_by_id(9), Some(viewport(9)));
    assert!(registry.contains(4));
    assert!(registry.contains(9));
}

#[test]
fn get_by_id_of_unknown_identity_is_none() {
    let mut registry = UniqueObjectStorage::new();
    registry.insert(ship(4));
    assert_eq!(registry.get_by_id(5), None);
    assert_eq!(registry.get_by_id(u32::MAX), None);
    assert!(!registry.contains(5));
}

#[test]
fn insert_refuses_an_identity_already_present() {
    let mut registry = UniqueObjectStorage::new();
    assert!(registry.insert(ship(4)));
    assert!(!registry.insert(viewport(4)));
    assert_eq!(registry.len(), 1);
    assert_eq!(registry.get_by_id(4), Some(ship(4)));
}

#[test]
fn all_objects_lists_in_insertion_order() {
    let mut registry = UniqueObjectStorage::new();
    registry.insert(viewport(3));
    registry.insert(ship(1));
    registry.insert(ship(2));
    assert_eq!(registry.all_objects(), vec![viewport(3), ship(1), ship(2)]);
}

#[test]
fn all_objects_is_a_snapshot() {
    let mut registry = UniqueObjectStorage::new();
    registry.insert(ship(1));
    let snapshot = registry.all_objects();
    registry.insert(ship(2));
    registry.remove(1);
    assert_eq!(snapshot, vec![ship(1)]);
    assert_eq!(registry.all_objects(), vec![ship(2)]);
}

#[test]
fn remove_takes_the_object_out_and_returns_it() {
    let mut registry = UniqueObjectStorage::new();
    registry.insert(ship(1));
    registry.insert(viewport(2));
    registry.insert(ship(3));
    assert_eq!(registry.remove(2), Some(viewport(2)));
    assert_eq!(registry.all_objects(), vec![ship(1), ship(3)]);
    assert_eq!(registry.get_by_id(2), None);
    assert_eq!(registry.get_by_id(1), Some(ship(1)));
    assert_eq!(registry.get_by_id(3), Some(ship(3)));
}

#[test]
fn remove_of_unknown_identity_changes_nothing() {
    let mut registry = UniqueObjectStorage::new();
    registry.insert(ship(1));
    assert_eq!(registry.remove(2), None);
    assert_eq!(registry.all_objects(), vec![ship(1)]);
}

#[test]
fn removed_identity_can_be_inserted_again() {
    let mut registry = UniqueObjectStorage::new();
    registry.insert(ship(1));
    registry.remove(1);
    assert!(registry.insert(viewport(1)));
    assert_eq!(registry.get_by_id(1), Some(viewport(1)));
}

#[test]
fn set_shape_replaces_the_shape_only() {
    let mut registry = UniqueObjectStorage::new();
    registry.insert(ship(1));
    registry.insert(viewport(2));
    let point = Shape::Point(PointData { location: at(5.0, 6.0) });
    assert!(registry.set_shape(2, point));
    let after = registry.get_by_id(2).unwrap();
    assert_eq!(after.collision, Some(CollisionComponent { shape: point }));
    assert_eq!(after.id, 2);
    assert_eq!(after.object_type, ObjectType::Viewport);
    assert_eq!(after.motion, None);
    assert_eq!(registry.get_by_id(1), Some(ship(1)));
    assert_eq!(registry.len(), 2);
}

#[test]
fn set_shape_fails_without_collision_capability_or_object() {
    let mut registry = UniqueObjectStorage::new();
    registry.insert(ship(1));
    let point = Shape::Point(PointData { location: at(5.0, 6.0) });
    assert!(!registry.set_shape(1, point));
    assert!(!registry.set_shape(2, point));
    assert_eq!(registry.all_objects(), vec![ship(1)]);
}

#[test]
fn set_velocity_sets_only_the_given_components() {
    let mut registry = UniqueObjectStorage::new();
    registry.insert(ship(1));
    assert!(registry.set_velocity(1, None, None, Some(scalar(-1.0))));
    let coordinates = registry.get_by_id(1).unwrap().motion.unwrap().coordinates;
    assert_eq!(coordinates.angular_velocity, scalar(-1.0));
    assert_eq!(coordinates.velocity, Velocity { x: scalar(3.0), y: scalar(4.0) });
    assert_eq!(coordinates.location, at(1.0, 2.0));
    assert_eq!(coordinates.rotation, scalar(0.25));

    assert!(registry.set_velocity(1, Some(scalar(8.0)), None, None));
    let coordinates = registry.get_by_id(1).unwrap().motion.unwrap().coordinates;
    assert_eq!(coordinates.velocity, Velocity { x: scalar(8.0), y: scalar(4.0) });
    assert_eq!(coordinates.angular_velocity, scalar(-1.0));

    assert!(registry.set_velocity(1, None, Some(scalar(9.0)), None));
    let coordinates = registry.get_by_id(1).unwrap().motion.unwrap().coordinates;
    assert_eq!(coordinates.velocity, Velocity { x: scalar(8.0), y: scalar(9.0) });

    assert!(registry.set_velocity(1, None, None, None));
    assert_eq!(registry.get_by_id(1).unwrap().motion.unwrap().coordinates, coordinates);
}

#[test]
fn set_velocity_fails_without_motion_capability_or_object() {
    let mut registry = UniqueObjectStorage::new();
    registry.insert(viewport(2));
    assert!(!registry.set_velocity(2, None, None, Some(scalar(1.0))));
    assert!(!registry.set_velocity(3, None, None, Some(scalar(1.0))));
    assert_eq!(registry.all_objects(), vec![viewport(2)]);
}

#[test]
fn set_motion_replaces_the_motion_state() {
    let mut registry = UniqueObjectStorage::new();
    registry.insert(ship(1));
    registry.insert(viewport(2));
    assert!(registry.set_motion(1, motion(10.0, 20.0)));
    let after = registry.get_by_id(1).unwrap();
    assert_eq!(after.motion, Some(motion(10.0, 20.0)));
    assert_eq!(after.object_type, ObjectType::Ship(ShipData { hull: 7 }));
    assert!(!registry.set_motion(2, motion(10.0, 20.0)));
    assert!(!registry.set_motion(3, motion(10.0, 20.0)));
    assert_eq!(registry.get_by_id(2), Some(viewport(2)));
}

#[test]
fn capability_probes_report_what_the_object_has() {
    let craft = ship(1);
    assert_eq!(craft.get_id(), 1);
    assert_eq!(craft.get_type(), ObjectType::Ship(ShipData { hull: 7 }));
    assert!(craft.has_ship_type());
    assert_eq!(craft.as_motion_component(), Some(motion(1.0, 2.0)));
    assert_eq!(craft.as_collision_component(), None);
    let window = viewport(2);
    assert!(!window.has_ship_type());
    assert_eq!(window.as_motion_component(), None);
    assert!(window.as_collision_component().is_some());
    let shot = GameObject::new(3, ObjectType::Projectile, None, None);
    assert!(!shot.has_ship_type());
}

#[test]
fn components_read_back_what_was_set() {
    let mut state = motion(1.0, 2.0);
    assert_eq!(state.get_coordinates().location, at(1.0, 2.0));
    assert_eq!(state.get_brake_heading_error(), scalar(90.0));
    state.set_velocity(Some(scalar(1.5)), Some(scalar(2.5)), Some(scalar(3.5)));
    assert_eq!(state.get_coordinates().velocity, Velocity { x: scalar(1.5), y: scalar(2.5) });
    assert_eq!(state.get_coordinates().angular_velocity, scalar(3.5));
    assert_eq!(state.get_coordinates().rotation, scalar(0.25));
    assert_eq!(state.get_brake_heading_error(), scalar(90.0));

    let circle = Shape::Circle(CircleData { location: at(0.0, 0.0), radius: scalar(50.0) });
    let point = Shape::Point(PointData { location: at(5.0, 6.0) });
    let mut collision = CollisionComponent::new(circle);
    assert_eq!(collision.get_shape(), circle);
    collision.set_shape(point);
    assert_eq!(collision.get_shape(), point);
}

#[test]
fn recenter_moves_a_circle_and_refuses_other_shapes() {
    let circle = Shape::Circle(CircleData { location: at(0.0, 0.0), radius: scalar(50.0) });
    assert_eq!(
        circle.recenter(at(7.0, -8.0)),
        Some(Shape::Circle(CircleData { location: at(7.0, -8.0), radius: scalar(50.0) }))
    );
    let point = Shape::Point(PointData { location: at(5.0, 6.0) });
    assert_eq!(point.recenter(at(7.0, -8.0)), None);
}
