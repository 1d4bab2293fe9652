//! Tests for the simulation engine, event system, weather system and
//! statistics.

use traffic_sim::engine::{SimulationConfig, SimulationEngine, SimulationError, SpawnPoint};
use traffic_sim::events::{
    ActiveEvent, EventManager, EventPriority, EventStatistics, SimulationEvent,
};
use traffic_sim::geometry::{Direction, Position};
use traffic_sim::stats::{CongestionSeverity, DirectionCounts, EfficiencySnapshot, IntersectionStats, SimulationStats};
use traffic_sim::weather::{Season, WeatherSystem, WeatherType};

#[test]
fn test_event_manager_creation() {
    let manager = EventManager::new();
    assert!(manager.emergency_enabled);
    assert!(manager.rush_hour_enabled);
    assert!(manager.incidents_enabled);
}

#[test]
fn test_event_scheduling() {
    let mut manager = EventManager::new();
    let event = SimulationEvent::EmergencyVehicleSpawned {
        position: Position::new(10, 10),
        direction: Direction::North,
    };

    manager.schedule_event(event, 5000, EventPriority::High);
    assert_eq!(manager.get_scheduled_event_count(), 1);
}

#[test]
fn test_rush_hour_schedule() {
    let schedule = traffic_sim::events::RushHourSchedule::default();
    assert!(!schedule.currently_active);
    assert!(schedule.traffic_multiplier > 1000);
}

#[test]
fn test_event_priority() {
    assert!(EventPriority::Critical > EventPriority::High);
    assert!(EventPriority::High > EventPriority::Normal);
    assert!(EventPriority::Normal > EventPriority::Low);
}

#[test]
fn test_event_statistics() {
    let mut stats = EventStatistics::new();
    let event = SimulationEvent::EmergencyVehicleSpawned {
        position: Position::new(0, 0),
        direction: Direction::North,
    };

    stats.record_event(&event);
    assert_eq!(stats.total_emergency_vehicles, 1);
}

#[test]
fn test_active_event() {
    let event = SimulationEvent::RushHourStarted;
    let active_event = ActiveEvent {
        event: event.clone(),
        elapsed: 0,
        duration: Some(10000),
        persistent: false,
    };

    assert_eq!(active_event.event, event);
    assert!(active_event.duration.is_some());
}

#[test]
fn test_priority_queue_order() {
    let mut manager = EventManager::new();
    manager.set_rush_hour_enabled(false);
    manager.set_incidents_enabled(false);
    manager.set_emergency_enabled(false);

    manager.schedule_event(SimulationEvent::MaintenanceMode { duration: 1000 }, 0, EventPriority::Low);
    manager.schedule_event(
        SimulationEvent::EmergencyVehicleSpawned {
            position: Position::new(1, 1),
            direction: Direction::East,
        },
        0,
        EventPriority::Critical,
    );
    manager.schedule_event(
        SimulationEvent::WeatherChanged { new_weather: WeatherType::Fog },
        0,
        EventPriority::Normal,
    );

    let mut intersections = Vec::new();
    let vehicles = Vec::new();
    let fired = manager.update(1, &vehicles, &mut intersections);

    // Highest priority first, lowest last.
    assert_eq!(fired.len(), 3);
    assert!(matches!(fired[0], SimulationEvent::EmergencyVehicleSpawned { .. }));
    assert!(matches!(fired[1], SimulationEvent::WeatherChanged { .. }));
    assert!(matches!(fired[2], SimulationEvent::MaintenanceMode { .. }));
}

#[test]
fn test_future_events_stay_queued() {
    let mut manager = EventManager::new();
    manager.set_rush_hour_enabled(false);
    manager.set_incidents_enabled(false);
    manager.set_emergency_enabled(false);

    manager.schedule_event(SimulationEvent::RushHourStarted, 60000, EventPriority::Normal);

    let mut intersections = Vec::new();
    let vehicles = Vec::new();
    let fired = manager.update(1000, &vehicles, &mut intersections);
    assert!(fired.is_empty());
    assert_eq!(manager.get_scheduled_event_count(), 1);
}

#[test]
fn test_rush_hour_multiplier() {
    let mut manager = EventManager::new();
    assert_eq!(manager.get_rush_hour_multiplier(), 1000);
    manager.rush_hour_schedule.currently_active = true;
    assert_eq!(manager.get_rush_hour_multiplier(), 2500);
}

#[test]
fn test_clear_all_events() {
    let mut manager = EventManager::new();
    manager.schedule_event(SimulationEvent::RushHourStarted, 0, EventPriority::Low);
    manager.clear_all_events();
    assert_eq!(manager.get_scheduled_event_count(), 0);
    assert_eq!(manager.get_active_event_count(), 0);
}

#[test]
fn test_weather_type_multipliers() {
    assert_eq!(WeatherType::Clear.traffic_multiplier(), 1000);
    assert!(WeatherType::Storm.traffic_multiplier() < 1000);
    assert!(WeatherType::Snow.speed_multiplier() < WeatherType::Clear.speed_multiplier());
}

#[test]
fn test_weather_system_creation() {
    let system = WeatherSystem::new();
    assert_eq!(system.current_weather, WeatherType::Clear);
    assert!(system.enabled);
    assert!(system.auto_change_enabled);
}

#[test]
fn test_weather_change() {
    let mut system = WeatherSystem::new();
    system.set_current_weather(WeatherType::LightRain);
    assert_eq!(system.current_weather, WeatherType::LightRain);
}

#[test]
fn test_weather_transitions() {
    let system = WeatherSystem::new();
    assert!(!system.weather_transitions.is_empty());

    let clear_transitions: Vec<_> = system
        .weather_transitions
        .iter()
        .filter(|t| t.from == WeatherType::Clear)
        .collect();
    assert!(!clear_transitions.is_empty());
}

#[test]
fn test_seasonal_probabilities() {
    assert!(
        WeatherType::Snow.seasonal_probability(Season::Winter)
            > WeatherType::Snow.seasonal_probability(Season::Summer)
    );
    assert!(
        WeatherType::Storm.seasonal_probability(Season::Summer)
            > WeatherType::Storm.seasonal_probability(Season::Winter)
    );
}

#[test]
fn test_weather_cycling() {
    let mut system = WeatherSystem::new();
    let initial_weather = system.current_weather;
    system.cycle_weather();
    assert_ne!(system.current_weather, initial_weather);
}

#[test]
fn test_weather_duration_stays_in_bounds() {
    // Whatever the draw, a change lands the duration within the configured
    // window.
    for _ in 0..20 {
        let mut system = WeatherSystem::new();
        system.set_current_weather(WeatherType::Storm);
        assert!(system.weather_duration >= system.min_weather_duration);
        assert!(system.weather_duration <= system.max_weather_duration);
    }
}

#[test]
fn test_weather_unchanged_without_command() {
    let mut system = WeatherSystem::new();
    system.set_auto_change_enabled(false);
    for _ in 0..50 {
        system.update(1000);
    }
    assert_eq!(system.current_weather, WeatherType::Clear);
}

#[test]
fn test_intensity_ramp() {
    let mut system = WeatherSystem::new();
    system.set_current_weather(WeatherType::Fog);
    system.set_auto_change_enabled(false);
    system.update(0);
    // The fog floor right after the change.
    assert_eq!(system.intensity, 300);
    system.update(90000);
    // Fully ramped after its ninety-second time constant.
    assert_eq!(system.intensity, 1000);
}

#[test]
fn test_storm_multiplier_below_clear() {
    let mut system = WeatherSystem::new();
    let clear = system.get_traffic_multiplier();
    assert_eq!(clear, 1000);
    system.set_current_weather(WeatherType::Storm);
    system.set_auto_change_enabled(false);
    system.update(1_000_000);
    assert!(system.intensity >= 900);
    assert!(system.get_traffic_multiplier() < clear);
}

#[test]
fn test_time_until_next_change() {
    let mut system = WeatherSystem::new();
    assert!(system.time_until_next_change().is_some());
    system.set_auto_change_enabled(false);
    assert!(system.time_until_next_change().is_none());
}

#[test]
fn test_simulation_stats_creation() {
    let stats = SimulationStats::new();
    assert_eq!(stats.total_vehicles_spawned, 0);
    assert_eq!(stats.overall_efficiency, 100);
    assert!(stats.statistics_enabled);
}

#[test]
fn test_efficiency_snapshot() {
    let snapshot = EfficiencySnapshot {
        timestamp: 0,
        overall_efficiency: 85,
        vehicle_count: 25,
        average_wait_time: 3500,
        throughput: 12,
    };

    assert_eq!(snapshot.overall_efficiency, 85);
    assert_eq!(snapshot.vehicle_count, 25);
}

#[test]
fn test_congestion_severity_ordering() {
    assert!(CongestionSeverity::Severe > CongestionSeverity::Heavy);
    assert!(CongestionSeverity::Heavy > CongestionSeverity::Moderate);
    assert!(CongestionSeverity::Moderate > CongestionSeverity::Light);
}

#[test]
fn test_intersection_stats() {
    let stats = IntersectionStats {
        id: 1,
        vehicles_processed: 150,
        average_efficiency: 85,
        total_wait_time: 120000,
        emergency_activations: 3,
        light_cycle_count: 45,
        last_emergency_time: None,
        peak_queue_length: 8,
        current_queue_lengths: DirectionCounts::new(),
    };

    assert_eq!(stats.id, 1);
    assert_eq!(stats.vehicles_processed, 150);
    assert_eq!(stats.peak_queue_length, 8);
}

#[test]
fn test_simulation_engine_creation() {
    let config = SimulationConfig::default();
    let engine = SimulationEngine::new(config);
    assert!(!engine.running);
    assert!(!engine.intersections.is_empty());
    assert!(!engine.spawn_points.is_empty());
}

#[test]
fn test_spawn_point() {
    let spawn_point = SpawnPoint::new(Position::new(10, 10), Direction::North, 1000);
    assert_eq!(spawn_point.position, Position::new(10, 10));
    assert_eq!(spawn_point.direction, Direction::North);
    assert!(spawn_point.active);
}

#[test]
fn test_simulation_start_stop() {
    let config = SimulationConfig::default();
    let mut engine = SimulationEngine::new(config);

    assert!(!engine.running);
    engine.start();
    assert!(engine.running);
    engine.stop();
    assert!(!engine.running);
}

#[test]
fn test_time_scale() {
    let config = SimulationConfig::default();
    let mut engine = SimulationEngine::new(config);

    engine.set_time_scale(2000);
    assert_eq!(engine.get_time_scale(), 2000);

    // Clamped to five times real time.
    engine.set_time_scale(10000);
    assert_eq!(engine.get_time_scale(), 5000);

    // Clamped to a tenth of real time.
    engine.set_time_scale(50);
    assert_eq!(engine.get_time_scale(), 100);
}

#[test]
fn test_vehicle_bounds_checking() {
    let config = SimulationConfig::default();
    let engine = SimulationEngine::new(config);

    let vehicle = traffic_sim::vehicles::Vehicle::new(
        1,
        traffic_sim::vehicles::VehicleType::Car,
        Position::new(-20, 10),
        Direction::East,
    );
    assert!(engine.is_vehicle_out_of_bounds(&vehicle));

    let vehicle = traffic_sim::vehicles::Vehicle::new(
        2,
        traffic_sim::vehicles::VehicleType::Car,
        Position::new(50, 25),
        Direction::East,
    );
    assert!(!engine.is_vehicle_out_of_bounds(&vehicle));
}

#[test]
fn test_update_while_stopped_is_noop() {
    let config = SimulationConfig::default();
    let mut engine = SimulationEngine::new(config);
    let result = engine.update(1000);
    assert!(result.is_ok());
    assert_eq!(engine.get_uptime(), 0);
    assert_eq!(engine.get_active_vehicle_count(), 0);
}

#[test]
fn test_trigger_emergency_vehicle_bad_index() {
    let config = SimulationConfig::default();
    let mut engine = SimulationEngine::new(config);
    let result = engine.trigger_emergency_vehicle(999);
    assert_eq!(result, Err(SimulationError::InvalidSpawnPoint));
    assert_eq!(engine.get_active_vehicle_count(), 0);
}

#[test]
fn test_trigger_emergency_vehicle_good_index() {
    let config = SimulationConfig::default();
    let mut engine = SimulationEngine::new(config);
    let result = engine.trigger_emergency_vehicle(0);
    assert!(result.is_ok());
    assert_eq!(engine.get_active_vehicle_count(), 1);
    assert!(engine.has_emergency_vehicles());
    assert_eq!(engine.vehicles[0].position, Position::new(5, 15));
    assert_eq!(engine.vehicles[0].direction, Direction::East);
}

#[test]
fn test_engine_reset() {
    let config = SimulationConfig::default();
    let mut engine = SimulationEngine::new(config);
    engine.start();
    let _ = engine.trigger_emergency_vehicle(0);
    let _ = engine.update(1000);
    engine.reset();
    assert_eq!(engine.get_active_vehicle_count(), 0);
    assert_eq!(engine.get_uptime(), 0);
    assert_eq!(engine.get_statistics().total_vehicles_spawned, 0);
    for intersection in &engine.intersections {
        assert_eq!(intersection.get_traffic_count(), 0);
        assert_eq!(intersection.get_efficiency_score(), 100);
    }
}

#[test]
fn test_get_intersection_by_id() {
    let config = SimulationConfig::default();
    let engine = SimulationEngine::new(config);
    let intersection = engine.get_intersection(2).expect("id 2 exists");
    assert_eq!(intersection.id, 2);
    assert!(engine.get_intersection(99).is_none());
}

#[test]
fn test_set_weather_through_engine() {
    let config = SimulationConfig::default();
    let mut engine = SimulationEngine::new(config);
    engine.set_weather(WeatherType::Snow);
    assert_eq!(engine.get_current_weather(), WeatherType::Snow);
}

#[test]
fn test_traffic_density_scaling() {
    let config = SimulationConfig::default();
    let mut engine = SimulationEngine::new(config);
    let base = engine.spawn_points[0].spawn_rate;
    engine.increase_traffic_density(2000);
    assert_eq!(engine.spawn_points[0].spawn_rate, base * 2);
    engine.decrease_traffic_density(500);
    assert_eq!(engine.spawn_points[0].spawn_rate, base);
}

#[test]
fn test_vehicle_type_percentages() {
    let mut stats = SimulationStats::new();
    assert_eq!(stats.get_vehicle_type_percentages().cars, 0);
    stats.vehicle_counts.cars = 3;
    stats.vehicle_counts.trucks = 1;
    let shares = stats.get_vehicle_type_percentages();
    assert_eq!(shares.cars, 750);
    assert_eq!(shares.trucks, 250);
    assert_eq!(shares.emergency, 0);
}

#[test]
fn test_intersection_rankings_sorted() {
    let mut stats = SimulationStats::new();
    for (id, eff) in [(0u32, 40u32), (1, 90), (2, 70)] {
        stats.intersection_stats.push(IntersectionStats {
            id,
            vehicles_processed: 0,
            average_efficiency: eff,
            total_wait_time: 0,
            emergency_activations: 0,
            light_cycle_count: 0,
            last_emergency_time: None,
            peak_queue_length: 0,
            current_queue_lengths: DirectionCounts::new(),
        });
    }
    let rankings = stats.get_intersection_rankings();
    assert_eq!(rankings, vec![(1, 90), (2, 70), (0, 40)]);
}

#[test]
fn test_engine_assigns_unique_ids() {
    let config = SimulationConfig::default();
    let mut engine = SimulationEngine::new(config);
    engine.trigger_emergency_vehicle(0).unwrap();
    engine.trigger_emergency_vehicle(1).unwrap();
    engine.trigger_emergency_vehicle(2).unwrap();
    assert_eq!(engine.vehicles[0].id, 1);
    assert_eq!(engine.vehicles[1].id, 2);
    assert_eq!(engine.vehicles[2].id, 3);
    assert_eq!(engine.get_next_vehicle_id(), 4);
}

#[test]
fn test_persistent_events_survive() {
    let mut manager = EventManager::new();
    manager.set_rush_hour_enabled(false);
    manager.set_incidents_enabled(false);
    manager.set_emergency_enabled(false);

    // An instantaneous event has no duration, so its active entry is
    // persistent and is never auto-pruned.
    manager.schedule_event(SimulationEvent::RushHourStarted, 0, EventPriority::Normal);
    let mut intersections = Vec::new();
    let vehicles = Vec::new();
    for _ in 0..100 {
        manager.update(10000, &vehicles, &mut intersections);
    }
    assert_eq!(manager.get_active_event_count(), 1);
}

#[test]
fn test_timed_events_expire() {
    let mut manager = EventManager::new();
    manager.set_rush_hour_enabled(false);
    manager.set_incidents_enabled(false);
    manager.set_emergency_enabled(false);

    manager.schedule_event(
        SimulationEvent::MaintenanceMode { duration: 5000 },
        0,
        EventPriority::Normal,
    );
    let mut intersections = Vec::new();
    let vehicles = Vec::new();
    manager.update(1000, &vehicles, &mut intersections);
    assert_eq!(manager.get_active_event_count(), 1);
    manager.update(5000, &vehicles, &mut intersections);
    assert_eq!(manager.get_active_event_count(), 0);
}
