//! Core of a terminal traffic simulation: intersections with timed traffic
//! lights, vehicles moving on an integer grid, a stochastic weather system,
//! and a scheduler for discrete simulation events.
//!
//! All simulation time is measured in whole milliseconds and every update
//! takes an explicit `dt_ms` step, so a run is reproducible from its inputs.
//! Dimensionless factors (weather multipliers, intensities, time scale) are
//! carried in thousandths ("per-mille"): the value 1000 stands for 1.0.

pub mod geometry;
pub mod lights;
mod rng;
pub mod vehicles;
pub mod intersection;
pub mod events;
pub mod weather;
pub mod ui;
pub mod art;
pub mod config;
pub mod car;
pub mod stats;
pub mod engine;

pub use engine::{SimulationConfig, SimulationEngine, SimulationError, SpawnPoint};
pub use events::{EventManager, EventPriority, SimulationEvent};
pub use geometry::{Direction, Position};
pub use intersection::Intersection;
pub use lights::{LightState, TrafficLight};
pub use stats::SimulationStats;
pub use vehicles::{Vehicle, VehicleSpawner, VehicleState, VehicleType};
pub use weather::{WeatherSystem, WeatherType};
