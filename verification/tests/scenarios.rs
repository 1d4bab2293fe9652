//! End-to-end scenarios driving the full engine, and concrete checks of the
//! intersection pipeline.

use traffic_sim::engine::{SimulationConfig, SimulationEngine};
use traffic_sim::geometry::{Direction, Position};
use traffic_sim::intersection::Intersection;
use traffic_sim::lights::LightState;
use traffic_sim::vehicles::{Vehicle, VehicleState, VehicleType};
use traffic_sim::weather::WeatherType;

fn one_road_config() -> SimulationConfig {
    let mut config = SimulationConfig::default();
    config.intersection_positions = vec![Position::new(20, 15)];
    config.spawn_positions = vec![(Position::new(5, 15), Direction::East)];
    config.base_spawn_rate = 1000;
    config.max_vehicles = 5;
    config.time_scale = 1000;
    config.enable_weather = false;
    config.enable_emergency_vehicles = false;
    config
}

#[test]
fn test_scenario_spawn_and_advance() {
    let mut engine = SimulationEngine::new(one_road_config());
    engine.event_manager.set_incidents_enabled(false);
    engine.event_manager.set_rush_hour_enabled(false);
    engine.start();

    for _ in 0..6 {
        engine.update(1000).unwrap();
    }

    // One spawn point at one vehicle per second, capped at five vehicles.
    let count = engine.get_active_vehicle_count();
    assert!(count >= 1);
    assert!(count <= 5);

    for vehicle in &engine.vehicles {
        assert_eq!(vehicle.direction, Direction::East);
        assert_eq!(vehicle.position.y, 15);
        // Advanced east from the entry, at most at emergency speed
        // (three cells per second over six seconds).
        assert!(vehicle.position.x >= 5);
        assert!(vehicle.position.x <= 5 + 18);
    }
}

#[test]
fn test_scenario_emergency_forces_all_red() {
    let mut config = SimulationConfig::default();
    config.intersection_positions = vec![Position::new(20, 15)];
    // The entry point is within distance 5 of the intersection.
    config.spawn_positions = vec![(Position::new(18, 15), Direction::East)];
    config.max_vehicles = 0;
    config.enable_weather = false;
    config.enable_emergency_vehicles = false;
    let mut engine = SimulationEngine::new(config);
    engine.event_manager.set_incidents_enabled(false);
    engine.event_manager.set_rush_hour_enabled(false);
    engine.start();

    engine.trigger_emergency_vehicle(0).unwrap();
    engine.update(1).unwrap();

    let intersection = engine.get_intersection(0).unwrap();
    assert!(intersection.is_emergency_active());
    for direction in [Direction::North, Direction::South, Direction::East, Direction::West] {
        let state = intersection.get_light_state(direction).unwrap();
        assert_eq!(state, LightState::Red);
        assert!(!state.can_proceed());
    }
}

#[test]
fn test_scenario_storm_slows_traffic() {
    let mut engine = SimulationEngine::new(SimulationConfig::default());
    let clear_multiplier = engine.weather_system.get_traffic_multiplier();
    assert_eq!(clear_multiplier, 1000);

    engine.set_weather(WeatherType::Storm);
    engine.weather_system.set_auto_change_enabled(false);
    // Let the storm ramp well past its 0.9 intensity floor.
    engine.weather_system.update(1_000_000);
    assert!(engine.weather_system.intensity >= 900);
    assert!(engine.weather_system.get_traffic_multiplier() < clear_multiplier);
}

#[test]
fn test_scenario_incident_caps_efficiency() {
    let mut config = SimulationConfig::default();
    config.max_vehicles = 0;
    config.enable_weather = false;
    config.enable_emergency_vehicles = false;
    let mut engine = SimulationEngine::new(config);
    engine.event_manager.set_incidents_enabled(false);
    engine.event_manager.set_rush_hour_enabled(false);
    engine.start();

    engine.event_manager.trigger_traffic_incident(0, 60000);

    // While the incident is active the score stays capped at 50.
    for _ in 0..3 {
        engine.update(1000).unwrap();
        assert!(engine.get_intersection(0).unwrap().get_efficiency_score() <= 50);
    }

    // After the sixty-second duration the cap is gone and, with nothing
    // waiting, the score recovers to 100.
    for _ in 0..70 {
        engine.update(1000).unwrap();
    }
    assert_eq!(engine.get_intersection(0).unwrap().get_efficiency_score(), 100);
}

#[test]
fn test_opposing_lights_agree_after_update() {
    let mut intersection = Intersection::new(0, Position::new(20, 15));
    let mut vehicles: Vec<Vehicle> = Vec::new();
    // Drive through several phase changes with an odd step size.
    for _ in 0..40 {
        intersection.update(&mut vehicles, 700);
        let north = intersection.get_light_state(Direction::North).unwrap();
        let south = intersection.get_light_state(Direction::South).unwrap();
        let east = intersection.get_light_state(Direction::East).unwrap();
        let west = intersection.get_light_state(Direction::West).unwrap();
        assert_eq!(north, south);
        assert_eq!(east, west);
    }
}

#[test]
fn test_efficiency_formula_values() {
    // No waiting scores 100.
    let mut intersection = Intersection::new(0, Position::new(50, 20));
    let mut no_vehicles: Vec<Vehicle> = Vec::new();
    intersection.update(&mut no_vehicles, 0);
    assert_eq!(intersection.get_efficiency_score(), 100);

    // Ten waiting vehicles score 80.
    for id in 0..10 {
        intersection.waiting_vehicles.add(Direction::North, id);
    }
    intersection.update(&mut no_vehicles, 0);
    assert_eq!(intersection.get_efficiency_score(), 80);

    // Sixty waiting vehicles clamp at 0.
    for id in 10..60 {
        intersection.waiting_vehicles.add(Direction::South, id);
    }
    intersection.update(&mut no_vehicles, 0);
    assert_eq!(intersection.get_efficiency_score(), 0);
}

#[test]
fn test_efficiency_emergency_bonus() {
    let mut intersection = Intersection::new(0, Position::new(50, 20));
    intersection.activate_emergency_mode();
    let mut no_vehicles: Vec<Vehicle> = Vec::new();
    intersection.update(&mut no_vehicles, 1);
    assert!(intersection.is_emergency_active());
    assert_eq!(intersection.get_efficiency_score(), 110);
}

#[test]
fn test_vehicle_held_then_released() {
    let mut intersection = Intersection::new(0, Position::new(20, 15));
    // East and west start red; a car approaching from the west is held.
    let mut vehicles = vec![Vehicle::new(
        1,
        VehicleType::Car,
        Position::new(18, 15),
        Direction::East,
    )];
    intersection.update(&mut vehicles, 0);
    assert_eq!(vehicles[0].state, VehicleState::Waiting);
    assert_eq!(intersection.get_waiting_count(Direction::East), 1);

    // Force the east light green; the held car resumes moving.
    intersection.lights.east.state = LightState::Green;
    intersection.lights.east.time_in_state = 0;
    intersection.update(&mut vehicles, 0);
    assert_eq!(vehicles[0].state, VehicleState::Moving);
}

#[test]
fn test_emergency_vehicle_ignores_red_light() {
    let mut intersection = Intersection::new(0, Position::new(20, 15));
    let mut vehicles = vec![Vehicle::new(
        1,
        VehicleType::Emergency,
        Position::new(28, 15),
        Direction::West,
    )];
    // Too far to trip emergency mode, close enough to pass any light check
    // once it reaches the band; emergency mode is for vehicles within
    // distance 5, this one is 8 away.
    intersection.update(&mut vehicles, 0);
    assert!(!intersection.is_emergency_active());

    // Bring it into the approach band against a red east-west light.
    vehicles[0].position = Position::new(22, 15);
    // Distance 2 also trips emergency mode, which is expected; the vehicle
    // itself must keep moving either way.
    intersection.update(&mut vehicles, 0);
    assert_eq!(vehicles[0].state, VehicleState::Moving);
}

#[test]
fn test_vehicle_counted_at_intersection() {
    let mut intersection = Intersection::new(0, Position::new(20, 15));
    let mut vehicles = vec![Vehicle::new(
        1,
        VehicleType::Car,
        Position::new(20, 15),
        Direction::East,
    )];
    assert_eq!(intersection.get_traffic_count(), 0);
    intersection.update(&mut vehicles, 0);
    assert_eq!(vehicles[0].state, VehicleState::AtIntersection);
    assert_eq!(intersection.get_traffic_count(), 1);
}

#[test]
fn test_exited_vehicles_are_retired() {
    let mut config = SimulationConfig::default();
    config.intersection_positions = vec![Position::new(20, 15)];
    // An entry right at the eastern edge: the vehicle leaves the bounds on
    // its first step.
    config.spawn_positions = vec![(Position::new(100, 15), Direction::East)];
    config.base_spawn_rate = 1000;
    config.max_vehicles = 5;
    config.enable_weather = false;
    config.enable_emergency_vehicles = false;
    let mut engine = SimulationEngine::new(config);
    engine.event_manager.set_incidents_enabled(false);
    engine.event_manager.set_rush_hour_enabled(false);
    engine.start();

    for _ in 0..4 {
        engine.update(1000).unwrap();
        for vehicle in &engine.vehicles {
            assert_ne!(vehicle.state, VehicleState::Exited);
        }
    }
    assert!(engine.get_statistics().total_vehicles_processed >= 1);
}

#[test]
fn test_statistics_track_vehicles() {
    let mut engine = SimulationEngine::new(one_road_config());
    engine.event_manager.set_incidents_enabled(false);
    engine.event_manager.set_rush_hour_enabled(false);
    engine.start();
    for _ in 0..3 {
        engine.update(1000).unwrap();
    }
    let stats = engine.get_statistics();
    assert!(stats.total_vehicles_spawned >= 1);
    assert_eq!(stats.active_vehicles, engine.get_active_vehicle_count());
    assert_eq!(stats.total_simulation_time, 3000);
}

#[test]
fn test_intersection_creation() {
    let intersection = Intersection::new(1, Position::new(10, 10));
    assert_eq!(intersection.id, 1);
    assert_eq!(intersection.position, Position::new(10, 10));
    assert!(!intersection.emergency_active);
    assert_eq!(intersection.lights.north.direction, Direction::North);
    assert_eq!(intersection.lights.south.direction, Direction::South);
    assert_eq!(intersection.lights.east.direction, Direction::East);
    assert_eq!(intersection.lights.west.direction, Direction::West);
}

#[test]
fn test_emergency_mode() {
    let mut intersection = Intersection::new(1, Position::new(10, 10));
    intersection.activate_emergency_mode();
    assert!(intersection.emergency_active);
    assert_eq!(intersection.emergency_elapsed, 0);
}

#[test]
fn test_waiting_vehicles() {
    let mut intersection = Intersection::new(1, Position::new(10, 10));
    intersection.waiting_vehicles.add(Direction::North, 123);
    assert_eq!(intersection.get_waiting_count(Direction::North), 1);

    intersection.waiting_vehicles.remove(Direction::North, 123);
    assert_eq!(intersection.get_waiting_count(Direction::North), 0);
}

#[test]
fn test_efficiency_calculation() {
    let mut intersection = Intersection::new(1, Position::new(10, 10));
    let mut no_vehicles: Vec<Vehicle> = Vec::new();
    intersection.update(&mut no_vehicles, 0);
    assert_eq!(intersection.get_efficiency_score(), 100);

    intersection.waiting_vehicles.add(Direction::North, 1);
    intersection.update(&mut no_vehicles, 0);
    assert!(intersection.get_efficiency_score() < 100);
}
