//! Tests for the interface state: art tables, layout geometry, panels,
//! alerts and configuration types.

use traffic_sim::art::{AsciiArt, CityRenderer, TimeOfDay, UiElement, WeatherType};
use traffic_sim::config::DirectionConfig;
use traffic_sim::geometry::Direction;
use traffic_sim::car::{Car, TrafficLightState};
use traffic_sim::ui::{AlertLevel, AlertSystem, ControlsPanel, Layout, Rectangle, Region, SystemStatus};
use traffic_sim::vehicles::VehicleType;

#[test]
fn test_ascii_art_creation() {
    let art = AsciiArt::new();
    assert!(!art.intersection_template.is_empty());
    assert!(!art.road_templates.is_empty());
    assert!(!art.vehicle_sprites.is_empty());
}

#[test]
fn test_vehicle_sprites() {
    let art = AsciiArt::new();
    let sprite = art.get_vehicle_sprite(VehicleType::Car, Direction::North);
    assert_eq!(sprite, "\u{25b2}");
}

#[test]
fn test_weather_effects() {
    let art = AsciiArt::new();
    let rain_sprite = art.get_weather_sprite(WeatherType::Rain, 0);
    assert!(rain_sprite.is_some());
}

#[test]
fn test_clear_weather_has_no_sprites() {
    let art = AsciiArt::new();
    assert!(art.get_weather_sprite(WeatherType::Clear, 0).is_none());
}

#[test]
fn test_city_renderer() {
    let renderer = CityRenderer::new();
    assert_eq!(renderer.weather, WeatherType::Clear);
    assert_eq!(renderer.time_of_day, TimeOfDay::Day);
}

#[test]
fn test_weather_frame_wraps() {
    let mut renderer = CityRenderer::new();
    for _ in 0..205 {
        renderer.update_weather_frame();
    }
    assert_eq!(renderer.weather_frame, 5);
    renderer.set_weather(WeatherType::Snow);
    assert_eq!(renderer.weather_frame, 0);
}

#[test]
fn test_ui_elements() {
    let art = AsciiArt::new();
    let status_panel = art.get_ui_template(UiElement::StatusPanel);
    assert!(status_panel.is_some());
    assert!(!status_panel.unwrap().is_empty());
}

#[test]
fn test_region_overlap() {
    let region1 = Region::new(0, 0, 10, 10);
    let region2 = Region::new(5, 5, 10, 10);
    let region3 = Region::new(20, 20, 5, 5);

    assert!(region1.overlaps(&region2));
    assert!(!region1.overlaps(&region3));
}

#[test]
fn test_region_contains_point() {
    let region = Region::new(2, 3, 4, 5);
    assert!(region.contains_point(2, 3));
    assert!(region.contains_point(5, 7));
    assert!(!region.contains_point(6, 7));
    assert!(!region.contains_point(1, 3));
}

#[test]
fn test_layout_creation() {
    let layout = Layout::new(120, 40);
    assert!(layout.simulation_area.width > 0);
    assert!(layout.simulation_area.height > 0);
}

#[test]
fn test_layout_resize() {
    let mut layout = Layout::new(120, 40);
    layout.resize(200, 60);
    assert_eq!(layout.simulation_area.width, 170);
    assert_eq!(layout.status_area.x, 172);
}

#[test]
fn test_rectangle() {
    let rect = Rectangle::new(10, 10, 20, 15);
    assert!(rect.contains_point(15, 15));
    assert!(!rect.contains_point(5, 5));
    assert_eq!(rect.center(), (20, 17));
}

#[test]
fn test_alert_system() {
    let mut alert_system = AlertSystem::new();
    alert_system.add_alert("Test alert".to_string(), AlertLevel::Warning, 3000);
    assert_eq!(alert_system.alert_queue.len(), 1);
}

#[test]
fn test_alert_priority() {
    assert!(AlertLevel::Critical.priority() > AlertLevel::Warning.priority());
    assert!(AlertLevel::Emergency.priority() > AlertLevel::Info.priority());
}

#[test]
fn test_alert_queue_priority_order() {
    let mut alert_system = AlertSystem::new();
    alert_system.add_alert("info".to_string(), AlertLevel::Info, 1000);
    alert_system.add_alert("critical".to_string(), AlertLevel::Critical, 1000);
    alert_system.add_alert("warning".to_string(), AlertLevel::Warning, 1000);
    assert_eq!(alert_system.alert_queue[0].level, AlertLevel::Critical);
    assert_eq!(alert_system.alert_queue[1].level, AlertLevel::Warning);
    assert_eq!(alert_system.alert_queue[2].level, AlertLevel::Info);
}

#[test]
fn test_alert_promotion_and_expiry() {
    let mut alert_system = AlertSystem::new();
    alert_system.add_alert("short".to_string(), AlertLevel::Info, 1000);
    alert_system.update(1);
    assert!(alert_system.current_alert.is_some());
    assert!(alert_system.alert_queue.is_empty());
    // An info alert is not persistent, so it expires after its duration.
    alert_system.update(1000);
    assert!(alert_system.current_alert.is_none());
}

#[test]
fn test_alert_clear_all() {
    let mut alert_system = AlertSystem::new();
    alert_system.add_alert("a".to_string(), AlertLevel::Info, 1000);
    alert_system.add_alert("b".to_string(), AlertLevel::Warning, 1000);
    alert_system.update(1);
    alert_system.clear_all();
    assert!(alert_system.current_alert.is_none());
    assert!(alert_system.alert_queue.is_empty());
}

#[test]
fn test_direction_conversion() {
    let config_dir = DirectionConfig::North;
    let traffic_dir: Direction = config_dir.into();
    assert_eq!(traffic_dir, Direction::North);

    let converted_back: DirectionConfig = traffic_dir.into();
    assert!(matches!(converted_back, DirectionConfig::North));
}

#[test]
fn test_weather_type_conversion() {
    let config_weather = traffic_sim::config::WeatherTypeConfig::Storm;
    let weather: traffic_sim::weather::WeatherType = config_weather.into();
    assert_eq!(weather, traffic_sim::weather::WeatherType::Storm);
}

#[test]
fn test_system_status_text() {
    assert_eq!(SystemStatus::Operational.text(), "OPERATIONAL");
    assert_eq!(SystemStatus::Emergency.text(), "EMERGENCY");
}

#[test]
fn test_controls_panel_toggle() {
    let mut panel = ControlsPanel::new();
    assert!(panel.visible);
    panel.toggle_visibility();
    assert!(!panel.visible);
    panel.toggle_visibility();
    assert!(panel.visible);
}

#[test]
fn test_single_lane_car() {
    let mut car = Car::new(1);
    assert_eq!(car.position, 0);
    car.update(true);
    assert_eq!(car.position, 1);
    assert!(!car.stopped);
    car.update(false);
    assert_eq!(car.position, 1);
    assert!(car.stopped);
    assert_eq!(car.lane_symbol(), "\u{1f17f}\u{fe0f}");
    car.update(true);
    assert_eq!(car.lane_symbol(), "\u{1f697}");
    assert!(!car.should_stop_for_yellow(20));
    car.position = 18;
    assert!(car.should_stop_for_yellow(20));

    assert!(matches!(TrafficLightState::Red.next(), TrafficLightState::Green));
    assert!(matches!(TrafficLightState::Green.next(), TrafficLightState::Yellow));
    assert!(matches!(TrafficLightState::Yellow.next(), TrafficLightState::Red));
}
