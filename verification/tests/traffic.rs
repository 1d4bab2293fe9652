//! Tests for the traffic primitives: directions, positions, lights,
//! vehicles and spawners.

use traffic_sim::geometry::{Direction, Position};
use traffic_sim::lights::{LightState, TrafficLight};
use traffic_sim::vehicles::{Priority, TrafficDensity, Vehicle, VehicleSpawner, VehicleState, VehicleType};

#[test]
fn test_direction_opposite() {
    assert_eq!(Direction::North.opposite(), Direction::South);
    assert_eq!(Direction::East.opposite(), Direction::West);
}

#[test]
fn test_direction_perpendicular() {
    let (e, w) = Direction::North.perpendicular();
    assert_eq!(e, Direction::East);
    assert_eq!(w, Direction::West);
}

#[test]
fn test_opposite_involution_all_directions() {
    for d in [Direction::North, Direction::South, Direction::East, Direction::West] {
        assert_eq!(d.opposite().opposite(), d);
    }
}

#[test]
fn test_perpendicular_excludes_axis() {
    for d in [Direction::North, Direction::South, Direction::East, Direction::West] {
        let (a, b) = d.perpendicular();
        assert_ne!(a, d);
        assert_ne!(b, d);
        assert_ne!(a, d.opposite());
        assert_ne!(b, d.opposite());
        assert_ne!(a, b);
    }
}

#[test]
fn test_position_step() {
    let pos = Position::new(5, 5);
    assert_eq!(pos.step(Direction::North), Position::new(5, 4));
    assert_eq!(pos.step(Direction::South), Position::new(5, 6));
    assert_eq!(pos.step(Direction::East), Position::new(6, 5));
    assert_eq!(pos.step(Direction::West), Position::new(4, 5));
}

#[test]
fn test_distance_squared() {
    let a = Position::new(0, 0);
    let b = Position::new(3, 4);
    assert_eq!(a.distance_squared_to(&b), 25);
    assert_eq!(b.distance_squared_to(&a), 25);
    assert_eq!(a.distance_squared_to(&a), 0);
}

#[test]
fn test_light_state_colors() {
    assert_eq!(LightState::Red.color_code(), "\x1b[31m\u{25cf}\x1b[0m");
    assert_eq!(LightState::Yellow.color_code(), "\x1b[33m\u{25cf}\x1b[0m");
    assert_eq!(LightState::Green.color_code(), "\x1b[32m\u{25cf}\x1b[0m");
}

#[test]
fn test_can_proceed() {
    assert!(!LightState::Red.can_proceed());
    assert!(!LightState::Yellow.can_proceed());
    assert!(LightState::Green.can_proceed());
}

#[test]
fn test_traffic_light_creation() {
    let light = TrafficLight::new(Direction::North);
    assert_eq!(light.direction, Direction::North);
    assert_eq!(light.state, LightState::Red);
    assert!(!light.emergency_override);
}

#[test]
fn test_should_change() {
    let mut light = TrafficLight::new(Direction::North);
    light.state = LightState::Green;
    light.time_in_state = 10000;

    // Ten seconds exceeds the default eight-second green phase.
    assert!(light.should_change());

    // Reset timer.
    light.time_in_state = 0;
    assert!(!light.should_change());
}

#[test]
fn test_emergency_override() {
    let mut light = TrafficLight::new(Direction::North);
    light.state = LightState::Green;

    light.set_emergency_override(true);
    assert_eq!(light.state, LightState::Red);
    assert!(!light.should_change());
}

#[test]
fn test_override_ignores_elapsed_time() {
    let mut light = TrafficLight::new(Direction::East);
    light.set_emergency_override(true);
    light.time_in_state = 1_000_000;
    assert_eq!(light.state, LightState::Red);
    assert!(!light.should_change());
    light.update(1_000_000);
    assert_eq!(light.state, LightState::Red);
}

#[test]
fn test_light_cycle_order() {
    let mut light = TrafficLight::new(Direction::North);
    light.state = LightState::Green;
    light.update(8000);
    assert_eq!(light.state, LightState::Yellow);
    light.update(2000);
    assert_eq!(light.state, LightState::Red);
    light.update(10000);
    assert_eq!(light.state, LightState::Green);
}

#[test]
fn test_time_remaining() {
    let mut light = TrafficLight::new(Direction::North);
    assert_eq!(light.time_remaining(), 10000);
    light.update(4000);
    assert_eq!(light.time_remaining(), 6000);
}

#[test]
fn test_conflicts_with() {
    let light = TrafficLight::new(Direction::North);
    assert!(light.conflicts_with(Direction::East));
    assert!(light.conflicts_with(Direction::West));
    assert!(!light.conflicts_with(Direction::South));
}

#[test]
fn test_vehicle_creation() {
    let vehicle = Vehicle::new(1, VehicleType::Car, Position::new(0, 0), Direction::North);
    assert_eq!(vehicle.id, 1);
    assert_eq!(vehicle.vehicle_type, VehicleType::Car);
    assert_eq!(vehicle.direction, Direction::North);
    assert_eq!(vehicle.state, VehicleState::Moving);
}

#[test]
fn test_vehicle_type_priority() {
    assert_eq!(VehicleType::Car.priority(), Priority::Normal);
    assert_eq!(VehicleType::Truck.priority(), Priority::Normal);
    assert_eq!(VehicleType::Emergency.priority(), Priority::Emergency);
}

#[test]
fn test_vehicle_motion_follows_speed() {
    // A car covers two cells per second: floor(elapsed * 2) cells in all.
    let mut car = Vehicle::new(1, VehicleType::Car, Position::new(5, 15), Direction::East);
    car.update(1000);
    assert_eq!(car.position, Position::new(7, 15));
    car.update(500);
    assert_eq!(car.position, Position::new(8, 15));
    car.update(250);
    assert_eq!(car.position, Position::new(8, 15));
    car.update(250);
    assert_eq!(car.position, Position::new(9, 15));
}

#[test]
fn test_exited_vehicle_never_changes() {
    let mut vehicle = Vehicle::new(7, VehicleType::Car, Position::new(3, 3), Direction::East);
    vehicle.waited_time = 1234;
    vehicle.set_state(VehicleState::Exited);
    let position_before = vehicle.position;
    let waited_before = vehicle.waited_time;
    for _ in 0..5 {
        vehicle.update(1000);
    }
    assert_eq!(vehicle.position, position_before);
    assert_eq!(vehicle.waited_time, waited_before);
    assert_eq!(vehicle.state, VehicleState::Exited);
}

#[test]
fn test_waiting_vehicle_keeps_position() {
    let mut vehicle = Vehicle::new(2, VehicleType::Truck, Position::new(4, 4), Direction::South);
    vehicle.set_state(VehicleState::Waiting);
    vehicle.update(5000);
    assert_eq!(vehicle.position, Position::new(4, 4));
    assert_eq!(vehicle.waited_time, 5000);
}

#[test]
fn test_is_stuck_boundary() {
    let mut vehicle = Vehicle::new(3, VehicleType::Car, Position::new(0, 0), Direction::North);
    vehicle.set_state(VehicleState::Waiting);
    vehicle.waited_time = 30000;
    assert!(!vehicle.is_stuck());
    vehicle.waited_time = 30001;
    assert!(vehicle.is_stuck());
    vehicle.set_state(VehicleState::Moving);
    assert!(!vehicle.is_stuck());
}

#[test]
fn test_vehicle_type_for_roll_weights() {
    assert_eq!(traffic_sim::vehicles::vehicle_type_for_roll(0), VehicleType::Emergency);
    assert_eq!(traffic_sim::vehicles::vehicle_type_for_roll(2), VehicleType::Emergency);
    assert_eq!(traffic_sim::vehicles::vehicle_type_for_roll(3), VehicleType::Truck);
    assert_eq!(traffic_sim::vehicles::vehicle_type_for_roll(20), VehicleType::Truck);
    assert_eq!(traffic_sim::vehicles::vehicle_type_for_roll(21), VehicleType::Car);
    assert_eq!(traffic_sim::vehicles::vehicle_type_for_roll(99), VehicleType::Car);
}

#[test]
fn test_vehicle_spawner() {
    let mut spawner = VehicleSpawner::new(1000); // one vehicle per second
    spawner.update(500);
    assert!(spawner.try_spawn(Position::new(0, 0), Direction::North).is_none());

    spawner.update(500);
    assert!(spawner.try_spawn(Position::new(0, 0), Direction::North).is_some());
}

#[test]
fn test_spawner() {
    let mut spawner = VehicleSpawner::new(1000);
    assert_eq!(spawner.spawn_rate(), 1000);
    spawner.set_spawn_rate(2000);
    assert_eq!(spawner.spawn_rate(), 2000);
}

#[test]
fn test_spawner_zero_rate_never_spawns() {
    let mut spawner = VehicleSpawner::new(0);
    spawner.update(1_000_000);
    assert!(spawner.try_spawn(Position::new(0, 0), Direction::East).is_none());
}

#[test]
fn test_spawned_vehicle_fields() {
    let mut spawner = VehicleSpawner::new(1000);
    spawner.update(1000);
    let vehicle = spawner
        .try_spawn(Position::new(9, 9), Direction::West)
        .expect("a full interval has accumulated");
    assert_eq!(vehicle.id, 1);
    assert_eq!(vehicle.position, Position::new(9, 9));
    assert_eq!(vehicle.direction, Direction::West);
    assert_eq!(vehicle.state, VehicleState::Moving);
    assert_eq!(vehicle.waited_time, 0);
    assert!(matches!(
        vehicle.vehicle_type,
        VehicleType::Car | VehicleType::Truck | VehicleType::Emergency
    ));
}

#[test]
fn test_traffic_density() {
    assert_eq!(TrafficDensity::Light.to_spawn_multiplier(), 500);
    assert_eq!(TrafficDensity::RushHour.to_spawn_multiplier(), 2500);
}

#[test]
fn test_vehicle_sprite_glyphs() {
    assert_eq!(VehicleType::Car.sprite(Direction::East), ">");
    assert_eq!(VehicleType::Truck.sprite(Direction::North), "\u{25b2}");
    assert_eq!(VehicleType::Emergency.sprite(Direction::South), "\u{1f691}");
}

#[test]
fn test_display_sprite_composition() {
    let vehicle = Vehicle::new(1, VehicleType::Car, Position::new(0, 0), Direction::East);
    assert_eq!(vehicle.display_sprite(), "\x1b[36m>\x1b[0m");
}
