use infinite_escape_velocity::binding_state::{
    Actuation, BindingError, BindingState, Drain, TickOutcome,
};
use infinite_escape_velocity::channel::Polled;
use infinite_escape_velocity::collision_component::CollisionComponent;
use infinite_escape_velocity::connectivity::{ClientServerMessage, MotionAction};
use infinite_escape_velocity::control_law::{command, command_brake_turn, command_turn, Command};
use infinite_escape_velocity::input_flags::InputFlags;
use infinite_escape_velocity::motion_component::{Coordinates, MotionComponent, Velocity};
use infinite_escape_velocity::scalar::Scalar;
use infinite_escape_velocity::shape::{CircleData, Location, PointData, Shape};
use infinite_escape_velocity::unique_object::{GameObject, ObjectType, ShipData};
use infinite_escape_velocity::unique_object_storage::UniqueObjectStorage;

const VIEWPORT: u32 = 100;

fn num(value: f32) -> Scalar {
    Scalar::from_bits(value.to_bits())
}

fn place(x: f32, y: f32) -> Location {
    Location { x: num(x), y: num(y) }
}

fn moving(x: f32, y: f32, heading_error: f32) -> MotionComponent {
    MotionComponent::new(
        Coordinates {
            location: place(x, y),
            velocity: Velocity { x: num(10.0), y: num(0.0) },
            rotation: num(0.0),
            angular_velocity: num(0.75),
        },
        num(heading_error),
    )
}

fn craft(id: u32, heading_error: f32) -> GameObject {
    GameObject::new(
        id,
        ObjectType::Ship(ShipData { hull: 1 }),
        Some(moving(12.5, -3.25, heading_error)),
        None,
    )
}

fn window(id: u32) -> GameObject {
    let circle = Shape::Circle(CircleData { location: place(0.0, 0.0), radius: num(640.0) });
    GameObject::new(id, ObjectType::Viewport, None, Some(CollisionComponent::new(circle)))
}

fn world(objects: &[GameObject]) -> UniqueObjectStorage {
    let mut registry = UniqueObjectStorage::new();
    for object in objects {
        assert!(registry.insert(*object));
    }
    registry
}

fn held(forward: bool, reverse: bool, left: bool, right: bool) -> InputFlags {
    InputFlags { forward, reverse, left, right }
}

fn bound_to(id: u32, flags: InputFlags) -> BindingState {
    BindingState { currently_controlled_object: Some(id), player_viewport_id: VIEWPORT, flags }
}

fn circle_of(registry: &UniqueObjectStorage, id: u32) -> CircleData {
    match registry.get_by_id(id).unwrap().collision.unwrap().shape {
        Shape::Circle(data) => data,
        other => panic!("not a circle: {other:?}"),
    }
}

#[test]
fn fresh_state_is_unbound_with_nothing_held() {
    let state = BindingState::new(VIEWPORT);
    assert_eq!(state.currently_controlled_object, None);
    assert_eq!(state.player_viewport_id, VIEWPORT);
    assert_eq!(state.flags, held(false, false, false, false));
}

#[test]
fn acquire_without_ship_stays_unbound() {
    let registry = world(&[window(VIEWPORT), GameObject::new(1, ObjectType::Projectile, None, None)]);
    let mut state = BindingState::new(VIEWPORT);
    for _ in 0..5 {
        assert_eq!(state.acquire(&registry), None);
        assert_eq!(state, BindingState::new(VIEWPORT));
    }
}

#[test]
fn acquire_binds_the_first_ship_in_listing_order() {
    let registry = world(&[window(VIEWPORT), craft(7, 0.0), craft(3, 0.0)]);
    let mut state = BindingState::new(VIEWPORT);
    assert_eq!(state.acquire(&registry), Some(7));
    assert_eq!(state.currently_controlled_object, Some(7));
    assert_eq!(state.player_viewport_id, VIEWPORT);
}

#[test]
fn acquire_on_a_bound_state_changes_nothing() {
    let registry = world(&[window(VIEWPORT), craft(7, 0.0)]);
    let mut state = bound_to(3, held(true, false, false, false));
    assert_eq!(state.acquire(&registry), None);
    assert_eq!(state, bound_to(3, held(true, false, false, false)));
}

#[test]
fn absorb_applies_messages_and_tells_empty_from_disconnected() {
    let mut state = BindingState::new(VIEWPORT);
    let press = ClientServerMessage::press(MotionAction::Left);
    assert_eq!(state.absorb(Polled::Message(press)), Drain::More);
    assert_eq!(state.flags, held(false, false, true, false));
    let before = state;
    assert_eq!(state.absorb(Polled::Empty), Drain::Drained);
    assert_eq!(state, before);
    assert_eq!(state.absorb(Polled::Disconnected), Drain::Disconnected);
    assert_eq!(state, before);
}

#[test]
fn resolve_keeps_a_live_ship() {
    let registry = world(&[window(VIEWPORT), craft(7, 0.0)]);
    let mut state = bound_to(7, held(false, false, false, false));
    assert_eq!(state.resolve(&registry), Some(craft(7, 0.0)));
    assert_eq!(state.currently_controlled_object, Some(7));
}

#[test]
fn resolve_drops_a_missing_object() {
    let registry = world(&[window(VIEWPORT)]);
    let mut state = bound_to(7, held(true, false, false, true));
    assert_eq!(state.resolve(&registry), None);
    assert_eq!(state.currently_controlled_object, None);
    assert_eq!(state.flags, held(true, false, false, true));
}

#[test]
fn resolve_drops_an_object_that_is_no_ship() {
    let registry = world(&[window(VIEWPORT), GameObject::new(7, ObjectType::Projectile, None, None)]);
    let mut state = bound_to(7, held(false, false, false, false));
    assert_eq!(state.resolve(&registry), None);
    assert_eq!(state.currently_controlled_object, None);
}

#[test]
fn resolve_of_an_unbound_state_is_none() {
    let registry = world(&[window(VIEWPORT), craft(7, 0.0)]);
    let mut state = BindingState::new(VIEWPORT);
    assert_eq!(state.resolve(&registry), None);
    assert_eq!(state, BindingState::new(VIEWPORT));
}

#[test]
fn step_syncs_the_viewport_and_keeps_its_radius() {
    let mut registry = world(&[window(VIEWPORT), craft(7, 0.0)]);
    let mut state = bound_to(7, held(false, false, false, false));
    let result = state.step(&mut registry, num(0.016));
    assert!(result.is_ok());
    let circle = circle_of(&registry, VIEWPORT);
    let position = registry.get_by_id(7).unwrap().motion.unwrap().coordinates.location;
    assert_eq!(position, place(12.5, -3.25));
    assert_eq!(circle.location, position);
    assert_eq!(circle.radius, num(640.0));
    assert_eq!(registry.len(), 2);
}

#[test]
fn step_with_nothing_held_commands_rest() {
    let mut registry = world(&[window(VIEWPORT), craft(7, 45.0)]);
    let mut state = bound_to(7, held(false, false, false, false));
    let result = state.step(&mut registry, num(0.016));
    assert_eq!(
        result,
        Ok(Some(Actuation {
            target: 7,
            command: Command { angular_velocity: num(0.0), forward_burn: false, brake_burn: false },
            delta_t: num(0.016),
            acceleration: num(60.0),
        }))
    );
    let coordinates = registry.get_by_id(7).unwrap().motion.unwrap().coordinates;
    assert_eq!(coordinates.angular_velocity, num(0.0));
    assert_eq!(coordinates.velocity, Velocity { x: num(10.0), y: num(0.0) });
    assert_eq!(coordinates.rotation, num(0.0));
}

#[test]
fn step_turns_left_and_right() {
    let mut registry = world(&[window(VIEWPORT), craft(7, 45.0)]);
    let mut state = bound_to(7, held(false, false, true, false));
    let actuation = state.step(&mut registry, num(0.016)).unwrap().unwrap();
    assert_eq!(actuation.command.angular_velocity, num(-1.0));
    assert_eq!(
        registry.get_by_id(7).unwrap().motion.unwrap().coordinates.angular_velocity,
        num(-1.0)
    );
    let mut state = bound_to(7, held(false, false, false, true));
    let actuation = state.step(&mut registry, num(0.016)).unwrap().unwrap();
    assert_eq!(actuation.command.angular_velocity, num(1.0));
    assert_eq!(
        registry.get_by_id(7).unwrap().motion.unwrap().coordinates.angular_velocity,
        num(1.0)
    );
}

#[test]
fn right_wins_where_both_turns_are_held() {
    assert_eq!(command_turn(&held(false, false, true, true)), num(1.0));
    assert_eq!(command_turn(&held(false, false, true, false)), num(-1.0));
    assert_eq!(command_turn(&held(false, false, false, true)), num(1.0));
    assert_eq!(command_turn(&held(true, true, false, false)), num(0.0));
}

#[test]
fn brake_turn_follows_the_sign_of_the_error() {
    assert_eq!(command_brake_turn(&num(35.0)), num(1.0));
    assert_eq!(command_brake_turn(&num(-35.0)), num(-1.0));
    assert_eq!(command_brake_turn(&num(0.0)), num(0.0));
    assert_eq!(command_brake_turn(&num(-0.0)), num(0.0));
    assert_eq!(command_brake_turn(&num(f32::NAN)), num(0.0));
}

#[test]
fn forward_burns_with_the_fixed_acceleration() {
    let mut registry = world(&[window(VIEWPORT), craft(7, 45.0)]);
    let mut state = bound_to(7, held(true, false, false, false));
    let actuation = state.step(&mut registry, num(0.5)).unwrap().unwrap();
    assert!(actuation.command.forward_burn);
    assert!(!actuation.command.brake_burn);
    assert_eq!(f32::from_bits(actuation.acceleration.to_bits()), 60.0);
    assert_eq!(actuation.delta_t, num(0.5));
    assert_eq!(actuation.target, 7);
}

#[test]
fn reverse_off_heading_turns_and_does_not_burn() {
    for (error, turn) in [(180.0f32, 1.0f32), (-180.0, -1.0), (1.0, 1.0), (-1.0, -1.0), (1.5, 1.0)] {
        let orders = command(&held(false, true, false, false), &moving(0.0, 0.0, error));
        assert_eq!(
            orders,
            Command { angular_velocity: num(turn), forward_burn: false, brake_burn: false }
        );
    }
}

#[test]
fn reverse_on_heading_burns_and_lets_the_turn_flags_steer() {
    for error in [0.0f32, -0.0, 0.5, -0.5, 0.999, -0.999] {
        let orders = command(&held(false, true, false, false), &moving(0.0, 0.0, error));
        assert_eq!(
            orders,
            Command { angular_velocity: num(0.0), forward_burn: false, brake_burn: true }
        );
        let orders = command(&held(false, true, true, false), &moving(0.0, 0.0, error));
        assert_eq!(
            orders,
            Command { angular_velocity: num(-1.0), forward_burn: false, brake_burn: true }
        );
    }
}

#[test]
fn reverse_overrides_the_turn_flags_while_off_heading() {
    let orders = command(&held(false, true, true, false), &moving(0.0, 0.0, 90.0));
    assert_eq!(orders.angular_velocity, num(1.0));
    let orders = command(&held(false, true, false, true), &moving(0.0, 0.0, -90.0));
    assert_eq!(orders.angular_velocity, num(-1.0));
}

#[test]
fn reverse_with_an_error_that_is_no_number_rests() {
    let orders = command(&held(false, true, false, true), &moving(0.0, 0.0, f32::NAN));
    assert_eq!(
        orders,
        Command { angular_velocity: num(0.0), forward_burn: false, brake_burn: false }
    );
}

#[test]
fn forward_and_reverse_held_together_both_take_effect() {
    let orders = command(&held(true, true, false, false), &moving(0.0, 0.0, 0.25));
    assert_eq!(
        orders,
        Command { angular_velocity: num(0.0), forward_burn: true, brake_burn: true }
    );
    let orders = command(&held(true, true, false, false), &moving(0.0, 0.0, 40.0));
    assert_eq!(
        orders,
        Command { angular_velocity: num(1.0), forward_burn: true, brake_burn: false }
    );
}

#[test]
fn reverse_turns_until_aligned_then_burns_each_tick() {
    let mut registry = world(&[window(VIEWPORT), craft(7, 180.0)]);
    let mut state = BindingState::new(VIEWPORT);
    let events = vec![ClientServerMessage::press(MotionAction::Reverse)];
    let first = state.tick(&mut registry, &events, false, num(1.0)).unwrap();
    assert_eq!(first.assigned, Some(7));
    let mut error = 180.0f32;
    let mut ticks_turning = 1;
    let mut actuation = first.actuation.unwrap();
    while error >= 1.0 {
        assert!(!actuation.command.brake_burn);
        assert!(!actuation.command.forward_burn);
        assert_eq!(actuation.command.angular_velocity, num(1.0));
        error -= 22.5;
        if error < 1.0 {
            error = 0.5;
        }
        let mut motion = registry.get_by_id(7).unwrap().motion.unwrap();
        motion.brake_heading_error = num(error);
        assert!(registry.set_motion(7, motion));
        actuation = state.tick(&mut registry, &Vec::new(), false, num(1.0)).unwrap().actuation.unwrap();
        ticks_turning += 1;
    }
    assert_eq!(ticks_turning, 9);
    for _ in 0..3 {
        assert!(actuation.command.brake_burn);
        assert_eq!(actuation.command.angular_velocity, num(0.0));
        actuation = state.tick(&mut registry, &Vec::new(), false, num(1.0)).unwrap().actuation.unwrap();
    }
}

#[test]
fn step_without_motion_capability_does_nothing() {
    let bare = GameObject::new(7, ObjectType::Ship(ShipData { hull: 1 }), None, None);
    let mut registry = world(&[bare]);
    let mut state = bound_to(7, held(true, false, false, false));
    assert_eq!(state.step(&mut registry, num(0.016)), Ok(None));
    assert_eq!(state.currently_controlled_object, Some(7));
    assert_eq!(registry.all_objects(), vec![bare]);
}

#[test]
fn step_of_an_unbound_state_does_nothing() {
    let mut registry = world(&[craft(7, 0.0)]);
    let mut state = BindingState::new(VIEWPORT);
    assert_eq!(state.step(&mut registry, num(0.016)), Ok(None));
    assert_eq!(registry.all_objects(), vec![craft(7, 0.0)]);
}

#[test]
fn step_drops_a_lost_binding_without_touching_the_registry() {
    let mut registry = world(&[window(VIEWPORT)]);
    let mut state = bound_to(7, held(true, false, false, false));
    assert_eq!(state.step(&mut registry, num(0.016)), Ok(None));
    assert_eq!(state.currently_controlled_object, None);
    assert_eq!(registry.all_objects(), vec![window(VIEWPORT)]);
}

#[test]
fn missing_viewport_is_a_fault() {
    let mut registry = world(&[craft(7, 0.0)]);
    let mut state = bound_to(7, held(false, false, true, false));
    assert_eq!(state.step(&mut registry, num(0.016)), Err(BindingError::ViewportMissing));
    assert_eq!(state.currently_controlled_object, Some(7));
    assert_eq!(registry.all_objects(), vec![craft(7, 0.0)]);
}

#[test]
fn viewport_without_collision_capability_is_a_fault() {
    let blind = GameObject::new(VIEWPORT, ObjectType::Viewport, None, None);
    let mut registry = world(&[blind, craft(7, 0.0)]);
    let mut state = bound_to(7, held(false, false, true, false));
    assert_eq!(state.step(&mut registry, num(0.016)), Err(BindingError::ViewportWithoutCollision));
    assert_eq!(registry.all_objects(), vec![blind, craft(7, 0.0)]);
}

#[test]
fn viewport_that_is_no_circle_is_a_fault() {
    let point = Shape::Point(PointData { location: place(0.0, 0.0) });
    let odd = GameObject::new(
        VIEWPORT,
        ObjectType::Viewport,
        None,
        Some(CollisionComponent::new(point)),
    );
    let mut registry = world(&[odd, craft(7, 0.0)]);
    let mut state = bound_to(7, held(false, false, true, false));
    assert_eq!(state.step(&mut registry, num(0.016)), Err(BindingError::ViewportNotCircle));
    assert_eq!(registry.all_objects(), vec![odd, craft(7, 0.0)]);
}

#[test]
fn viewport_faults_do_not_arise_without_a_target() {
    let mut registry = world(&[GameObject::new(7, ObjectType::Projectile, None, None)]);
    let mut state = bound_to(7, held(false, false, false, false));
    assert_eq!(state.step(&mut registry, num(0.016)), Ok(None));
    let mut state = BindingState::new(VIEWPORT);
    assert_eq!(state.tick(&mut registry, &Vec::new(), false, num(0.016)), Ok(TickOutcome { assigned: None, actuation: None }));
}

#[test]
fn a_ship_can_be_its_own_viewport() {
    let circle = Shape::Circle(CircleData { location: place(0.0, 0.0), radius: num(5.0) });
    let both = GameObject::new(
        VIEWPORT,
        ObjectType::Ship(ShipData { hull: 1 }),
        Some(moving(8.0, 9.0, 0.0)),
        Some(CollisionComponent::new(circle)),
    );
    let mut registry = world(&[both]);
    let mut state = bound_to(VIEWPORT, held(false, false, false, true));
    assert!(state.step(&mut registry, num(0.016)).unwrap().is_some());
    let after = registry.get_by_id(VIEWPORT).unwrap();
    assert_eq!(
        after.collision.unwrap().shape,
        Shape::Circle(CircleData { location: place(8.0, 9.0), radius: num(5.0) })
    );
    assert_eq!(after.motion.unwrap().coordinates.angular_velocity, num(1.0));
    assert_eq!(after.motion.unwrap().coordinates.location, place(8.0, 9.0));
}

#[test]
fn tick_binds_applies_events_and_actuates_in_one_call() {
    let mut registry = world(&[window(VIEWPORT), craft(7, 0.0)]);
    let mut state = BindingState::new(VIEWPORT);
    let events = vec![
        ClientServerMessage::press(MotionAction::Forward),
        ClientServerMessage::press(MotionAction::Right),
    ];
    let outcome = state.tick(&mut registry, &events, false, num(0.25)).unwrap();
    assert_eq!(outcome.assigned, Some(7));
    assert_eq!(
        outcome.actuation,
        Some(Actuation {
            target: 7,
            command: Command { angular_velocity: num(1.0), forward_burn: true, brake_burn: false },
            delta_t: num(0.25),
            acceleration: num(60.0),
        })
    );
    assert_eq!(state, bound_to(7, held(true, false, false, true)));
    assert_eq!(circle_of(&registry, VIEWPORT).location, place(12.5, -3.25));
}

#[test]
fn tick_announces_a_binding_once() {
    let mut registry = world(&[window(VIEWPORT), craft(7, 0.0)]);
    let mut state = BindingState::new(VIEWPORT);
    assert_eq!(state.tick(&mut registry, &Vec::new(), false, num(0.25)).unwrap().assigned, Some(7));
    for _ in 0..4 {
        assert_eq!(state.tick(&mut registry, &Vec::new(), false, num(0.25)).unwrap().assigned, None);
    }
}

#[test]
fn tick_with_a_disconnected_channel_is_fatal_after_binding_and_events() {
    let mut registry = world(&[window(VIEWPORT), craft(7, 0.0)]);
    let mut state = BindingState::new(VIEWPORT);
    let events = vec![ClientServerMessage::press(MotionAction::Left)];
    assert_eq!(
        state.tick(&mut registry, &events, true, num(0.25)),
        Err(BindingError::InputDisconnected)
    );
    assert_eq!(state, bound_to(7, held(false, false, true, false)));
    assert_eq!(registry.all_objects(), vec![window(VIEWPORT), craft(7, 0.0)]);
}

#[test]
fn tick_rebinds_on_the_tick_after_a_loss() {
    let mut registry = world(&[window(VIEWPORT), craft(7, 0.0), craft(8, 0.0)]);
    let mut state = BindingState::new(VIEWPORT);
    assert_eq!(state.tick(&mut registry, &Vec::new(), false, num(0.25)).unwrap().assigned, Some(7));
    registry.remove(7);
    let lost = state.tick(&mut registry, &Vec::new(), false, num(0.25)).unwrap();
    assert_eq!(lost, TickOutcome { assigned: None, actuation: None });
    assert_eq!(state.currently_controlled_object, None);
    let again = state.tick(&mut registry, &Vec::new(), false, num(0.25)).unwrap();
    assert_eq!(again.assigned, Some(8));
    assert_eq!(state.currently_controlled_object, Some(8));
}
