//! The simulation engine: owns all intersections, vehicles, spawners, the
//! event manager, the weather system and the statistics, and drives them
//! through a fixed per-tick pipeline.

use vstd::prelude::*;
use crate::events::{EventManager, SimulationEvent};
use crate::geometry::{Direction, Position};
use crate::intersection::Intersection;
use crate::stats::SimulationStats;
use crate::vehicles::{spec_distinct_ids, spec_ids_below, Vehicle, VehicleSpawner, VehicleState, VehicleType};
use crate::weather::{WeatherSystem, WeatherType};

verus! {

/// Time scale bounds, in thousandths: a tenth of real time up to five times
/// real time.
pub const MIN_TIME_SCALE: u32 = 100;
pub const MAX_TIME_SCALE: u32 = 5000;

/// Spawn rates are capped so that rate arithmetic stays comfortably inside
/// 64 bits.
pub const MAX_SPAWN_RATE: u32 = 1000000000;

/// Whether a position lies outside the simulation bounds
/// (x in -10 to 100, y in -10 to 50).
pub open spec fn spec_out_of_bounds(p: Position) -> bool {
    p.x < -10 || p.x > 100 || p.y < -10 || p.y > 50
}

/// The scaled time step: `dt_ms` stretched by the time scale (thousandths),
/// saturating at the largest representable step.
pub open spec fn spec_scaled_dt(dt_ms: u64, time_scale: u32) -> u64 {
    let scaled = (dt_ms as int) * (time_scale as int) / 1000;
    if scaled > u64::MAX as int {
        u64::MAX
    } else {
        scaled as u64
    }
}

/// A vehicle after the motion phase of one tick: moved by `dt_ms`, and
/// marked exited if that left it outside the simulation bounds.
pub open spec fn spec_tick_motion(v: Vehicle, dt_ms: u64) -> Vehicle {
    let moved = v.spec_updated(dt_ms);
    if spec_out_of_bounds(moved.position) {
        Vehicle { state: VehicleState::Exited, ..moved }
    } else {
        moved
    }
}

/// How many vehicles of the collection leave the bounds during a motion
/// phase of `dt_ms`; each is counted as processed.
pub open spec fn spec_count_exiting(vs: Seq<Vehicle>, dt_ms: u64) -> nat
    decreases vs.len(),
{
    if vs.len() == 0 {
        0
    } else {
        spec_count_exiting(vs.drop_last(), dt_ms) + (if spec_out_of_bounds(
            vs.last().spec_updated(dt_ms).position,
        ) {
            1nat
        } else {
            0nat
        })
    }
}

/// What the intersection and event phases may do to one vehicle: its
/// identity, position and accumulated wait are untouched, only its motion
/// state and step timer may change, and it is exited afterwards exactly when
/// it was before.
pub open spec fn spec_preserves_core(pre: Vehicle, post: Vehicle) -> bool {
    &&& post.id == pre.id
    &&& post.vehicle_type == pre.vehicle_type
    &&& post.position == pre.position
    &&& post.direction == pre.direction
    &&& post.waited_time == pre.waited_time
    &&& post.target_position == pre.target_position
    &&& (post.state is Exited <==> pre.state is Exited)
    &&& (pre.state is Exited ==> post == pre)
}

/// One running tick's effect on the vehicle collection, witnessed by the
/// list `mid` right after spawning and the list `fin` right before
/// retirement: spawning appends fresh vehicles at active entry points;
/// motion moves every vehicle and marks the out-of-bounds ones exited,
/// counting them as processed; the intersection and event phases only
/// re-decide motion states and append emergency vehicles; and retirement
/// keeps exactly the non-exited vehicles.
pub open spec fn spec_tick_pipeline_step(
    pre: Seq<Vehicle>,
    spawn_points: Seq<SpawnPoint>,
    dt_ms: u64,
    processed0: u64,
    processed1: u64,
    mid: Seq<Vehicle>,
    fin: Seq<Vehicle>,
    post: Seq<Vehicle>,
) -> bool {
    &&& mid.len() >= pre.len()
    &&& (forall|i: int| 0 <= i < pre.len() ==> #[trigger] mid[i] == pre[i])
    &&& (forall|i: int| pre.len() <= i < mid.len()
        ==> spec_spawned_from(#[trigger] mid[i], spawn_points))
    &&& processed1 as int == vstd::math::min(
        processed0 + spec_count_exiting(mid, dt_ms),
        u64::MAX as int,
    )
    &&& fin.len() >= mid.len()
    &&& (forall|i: int| 0 <= i < mid.len()
        ==> spec_preserves_core(spec_tick_motion(#[trigger] mid[i], dt_ms), fin[i]))
    &&& (forall|i: int| mid.len() <= i < fin.len()
        ==> (#[trigger] fin[i]).vehicle_type is Emergency && fin[i].state is Moving)
    &&& post == fin.filter(|v: Vehicle| !(v.state is Exited))
}

/// Whether some spawn-phase and pre-retirement vehicle lists witness one
/// tick's pipeline; see `spec_tick_pipeline_step`.
pub open spec fn spec_tick_vehicles(
    pre: Seq<Vehicle>,
    spawn_points: Seq<SpawnPoint>,
    dt_ms: u64,
    processed0: u64,
    processed1: u64,
    post: Seq<Vehicle>,
) -> bool {
    exists|mid: Seq<Vehicle>, fin: Seq<Vehicle>| #[trigger] spec_tick_pipeline_step(
        pre,
        spawn_points,
        dt_ms,
        processed0,
        processed1,
        mid,
        fin,
        post,
    )
}

/// A configured vehicle entry point.
#[derive(Debug, Clone)]
pub struct SpawnPoint {
    pub position: Position,
    pub direction: Direction,
    pub active: bool,
    /// Base spawn rate in thousandths of a vehicle per second.
    pub spawn_rate: u32,
}

impl SpawnPoint {
    pub fn new(position: Position, direction: Direction, spawn_rate: u32) -> (r: Self)
        ensures
            r.position == position,
            r.direction == direction,
            r.active,
            r.spawn_rate == spawn_rate,
    {
        Self {
            position,
            direction,
            active: true,
            spawn_rate,
        }
    }
}

/// Simulation construction parameters; the configuration layer outside this
/// crate produces one of these.
#[derive(Debug, Clone)]
pub struct SimulationConfig {
    pub target_fps: u32,
    pub max_vehicles: usize,
    /// Thousandths of a vehicle per second per spawn point.
    pub base_spawn_rate: u32,
    pub intersection_positions: Vec<Position>,
    pub spawn_positions: Vec<(Position, Direction)>,
    pub enable_weather: bool,
    pub enable_emergency_vehicles: bool,
    /// Initial time scale in thousandths.
    pub time_scale: u32,
}

impl Default for SimulationConfig {
    /// The default city: four intersections in a grid, eight entry points
    /// feeding them, half a vehicle per second each, at most 100 vehicles,
    /// real-time scale.
    fn default() -> (r: Self)
        ensures
            r.target_fps == 30,
            r.max_vehicles == 100,
            r.base_spawn_rate == 500,
            r.intersection_positions@ == seq![
                Position { x: 20, y: 15 },
                Position { x: 60, y: 15 },
                Position { x: 20, y: 25 },
                Position { x: 60, y: 25 },
            ],
            r.spawn_positions@ == seq![
                (Position { x: 5, y: 15 }, Direction::East),
                (Position { x: 80, y: 15 }, Direction::West),
                (Position { x: 20, y: 5 }, Direction::South),
                (Position { x: 20, y: 35 }, Direction::North),
                (Position { x: 5, y: 25 }, Direction::East),
                (Position { x: 80, y: 25 }, Direction::West),
                (Position { x: 60, y: 5 }, Direction::South),
                (Position { x: 60, y: 35 }, Direction::North),
            ],
            r.enable_weather,
            r.enable_emergency_vehicles,
            r.time_scale == 1000,
    {
        let mut intersection_positions: Vec<Position> = Vec::new();
        intersection_positions.push(Position::new(20, 15));
        intersection_positions.push(Position::new(60, 15));
        intersection_positions.push(Position::new(20, 25));
        intersection_positions.push(Position::new(60, 25));

        let mut spawn_positions: Vec<(Position, Direction)> = Vec::new();
        spawn_positions.push((Position::new(5, 15), Direction::East));
        spawn_positions.push((Position::new(80, 15), Direction::West));
        spawn_positions.push((Position::new(20, 5), Direction::South));
        spawn_positions.push((Position::new(20, 35), Direction::North));
        spawn_positions.push((Position::new(5, 25), Direction::East));
        spawn_positions.push((Position::new(80, 25), Direction::West));
        spawn_positions.push((Position::new(60, 5), Direction::South));
        spawn_positions.push((Position::new(60, 35), Direction::North));

        proof {
            assert(intersection_positions@ =~= seq![
                Position { x: 20, y: 15 },
                Position { x: 60, y: 15 },
                Position { x: 20, y: 25 },
                Position { x: 60, y: 25 },
            ]);
            assert(spawn_positions@ =~= seq![
                (Position { x: 5, y: 15 }, Direction::East),
                (Position { x: 80, y: 15 }, Direction::West),
                (Position { x: 20, y: 5 }, Direction::South),
                (Position { x: 20, y: 35 }, Direction::North),
                (Position { x: 5, y: 25 }, Direction::East),
                (Position { x: 80, y: 25 }, Direction::West),
                (Position { x: 60, y: 5 }, Direction::South),
                (Position { x: 60, y: 35 }, Direction::North),
            ]);
        }

        Self {
            target_fps: 30,
            max_vehicles: 100,
            base_spawn_rate: 500,
            intersection_positions,
            spawn_positions,
            enable_weather: true,
            enable_emergency_vehicles: true,
            time_scale: 1000,
        }
    }
}

/// Simulation error types.
#[derive(Debug, Clone, PartialEq, Eq)]
pub enum SimulationError {
    InvalidSpawnPoint,
    MaxVehiclesReached,
    IntersectionNotFound,
    SystemNotRunning,
    ConfigurationError(String),
}

/// Core simulation engine orchestrating all simulation systems.
///
/// The engine is the sole owner of the mutable simulation state; everything
/// is advanced by explicit `update(dt_ms)` calls, so a run is a pure function
/// of the construction parameters, the time steps and the random rolls.
#[derive(Debug)]
pub struct SimulationEngine {
    pub intersections: Vec<Intersection>,
    pub vehicles: Vec<Vehicle>,
    pub spawners: Vec<VehicleSpawner>,
    pub event_manager: EventManager,
    pub weather_system: WeatherSystem,
    pub statistics: SimulationStats,
    /// Accumulated simulation time in milliseconds.
    pub simulation_time: u64,
    /// Source of fresh vehicle ids: every live vehicle's id is below it, so
    /// ids are unique across all spawn points and emergency spawns.
    pub next_vehicle_id: u32,
    pub running: bool,
    /// Time scale in thousandths, clamped to the scale bounds.
    pub time_scale: u32,
    pub spawn_points: Vec<SpawnPoint>,
}

impl SimulationEngine {
    /// One spawner per spawn point, well-formed intersections and
    /// subsystems, and a time scale within bounds.
    pub open spec fn wf(self) -> bool {
        &&& self.spawners@.len() == self.spawn_points@.len()
        &&& MIN_TIME_SCALE <= self.time_scale <= MAX_TIME_SCALE
        &&& (forall|j: int| 0 <= j < self.intersections@.len()
            ==> (#[trigger] self.intersections@[j]).wf())
        &&& self.event_manager.wf()
        &&& self.weather_system.wf()
        &&& spec_distinct_ids(self.vehicles@)
        &&& spec_ids_below(self.vehicles@, self.next_vehicle_id)
    }

    /// Create a new simulation engine from the configuration: one
    /// intersection per configured position (ids in order), one spawn point
    /// and spawner per configured entry, weather and emergency toggles
    /// applied, stopped until `start`.
    pub fn new(config: SimulationConfig) -> (r: Self)
        requires
            config.intersection_positions@.len() <= u32::MAX,
        ensures
            r.wf(),
            !r.running,
            r.simulation_time == 0,
            r.vehicles@.len() == 0,
            r.intersections@.len() == config.intersection_positions@.len(),
            forall|j: int| 0 <= j < config.intersection_positions@.len() ==> {
                let inter = #[trigger] r.intersections@[j];
                &&& inter.id == j
                &&& inter.position == config.intersection_positions@[j]
                &&& !inter.emergency_active
                &&& inter.efficiency_score == 100
                &&& inter.lights.north.state is Green
                &&& inter.lights.east.state is Red
            },
            r.spawn_points@.len() == config.spawn_positions@.len(),
            forall|j: int| 0 <= j < config.spawn_positions@.len() ==> {
                let sp = #[trigger] r.spawn_points@[j];
                &&& sp.position == config.spawn_positions@[j].0
                &&& sp.direction == config.spawn_positions@[j].1
                &&& sp.active
                &&& sp.spawn_rate == config.base_spawn_rate
            },
            forall|j: int| 0 <= j < r.spawners@.len()
                ==> (#[trigger] r.spawners@[j]).spec_rate() == config.base_spawn_rate
                    && r.spawners@[j].spec_elapsed() == 0
                    && r.spawners@[j].spec_counter() == 0,
            r.weather_system.enabled == config.enable_weather,
            r.event_manager.emergency_enabled == config.enable_emergency_vehicles,
            r.statistics.max_vehicles == config.max_vehicles,
            r.time_scale == Self::spec_clamped_scale(config.time_scale),
            r.next_vehicle_id == 1,
    {
        let mut intersections: Vec<Intersection> = Vec::new();
        let mut i: usize = 0;
        while i < config.intersection_positions.len()
            invariant
                i <= config.intersection_positions@.len(),
                config.intersection_positions@.len() <= u32::MAX,
                intersections@.len() == i,
                forall|j: int| 0 <= j < i ==> {
                    let inter = #[trigger] intersections@[j];
                    &&& inter.id == j
                    &&& inter.position == config.intersection_positions@[j]
                    &&& !inter.emergency_active
                    &&& inter.efficiency_score == 100
                    &&& inter.lights.north.state is Green
                    &&& inter.lights.east.state is Red
                    &&& inter.wf()
                },
            decreases config.intersection_positions@.len() - i,
        {
            let intersection = Intersection::new(i as u32, config.intersection_positions[i]);
            intersections.push(intersection);
            i += 1;
        }

        let mut spawn_points: Vec<SpawnPoint> = Vec::new();
        let mut spawners: Vec<VehicleSpawner> = Vec::new();
        let mut k: usize = 0;
        while k < config.spawn_positions.len()
            invariant
                k <= config.spawn_positions@.len(),
                spawn_points@.len() == k,
                spawners@.len() == k,
                forall|j: int| 0 <= j < k ==> {
                    let sp = #[trigger] spawn_points@[j];
                    &&& sp.position == config.spawn_positions@[j].0
                    &&& sp.direction == config.spawn_positions@[j].1
                    &&& sp.active
                    &&& sp.spawn_rate == config.base_spawn_rate
                },
                forall|j: int| 0 <= j < k
                    ==> (#[trigger] spawners@[j]).spec_rate() == config.base_spawn_rate
                        && spawners@[j].spec_elapsed() == 0
                        && spawners@[j].spec_counter() == 0,
            decreases config.spawn_positions@.len() - k,
        {
            let (position, direction) = config.spawn_positions[k];
            spawn_points.push(SpawnPoint::new(position, direction, config.base_spawn_rate));
            spawners.push(VehicleSpawner::new(config.base_spawn_rate));
            k += 1;
        }

        let mut weather_system = WeatherSystem::new();
        weather_system.set_enabled(config.enable_weather);

        let mut event_manager = EventManager::new();
        event_manager.set_emergency_enabled(config.enable_emergency_vehicles);

        let mut statistics = SimulationStats::new();
        statistics.max_vehicles = config.max_vehicles;

        let time_scale = clamp_time_scale(config.time_scale);

        Self {
            intersections,
            vehicles: Vec::new(),
            spawners,
            event_manager,
            weather_system,
            statistics,
            simulation_time: 0,
            next_vehicle_id: 1,
            running: false,
            time_scale,
            spawn_points,
        }
    }

    /// The time scale actually stored for a requested scale.
    pub open spec fn spec_clamped_scale(scale: u32) -> u32 {
        if scale < MIN_TIME_SCALE {
            MIN_TIME_SCALE
        } else if scale > MAX_TIME_SCALE {
            MAX_TIME_SCALE
        } else {
            scale
        }
    }

    /// Start the simulation: future updates take effect and the simulation
    /// clock restarts.
    pub fn start(&mut self)
        ensures
            *final(self) == (SimulationEngine { running: true, simulation_time: 0, ..*old(self) }),
    {
        self.running = true;
        self.simulation_time = 0;
    }

    /// Stop the simulation: updates become no-ops until restarted.
    pub fn stop(&mut self)
        ensures
            *final(self) == (SimulationEngine { running: false, ..*old(self) }),
    {
        self.running = false;
    }

    /// Advance the simulation by `dt_ms` of real time.
    ///
    /// While stopped this is a no-op that still reports success. Otherwise
    /// the scaled time step drives, in order: vehicle spawning, vehicle
    /// motion with bounds retirement, every intersection's update, the event
    /// system with its triggered events, the weather system with the derived
    /// spawn rates, the statistics, and finally the removal of exited
    /// vehicles.
    pub fn update(&mut self, dt_ms: u64) -> (r: Result<(), SimulationError>)
        requires
            old(self).wf(),
        ensures
            final(self).wf(),
            r is Ok,
            !old(self).running ==> *final(self) == *old(self),
            final(self).running == old(self).running,
            final(self).time_scale == old(self).time_scale,
            old(self).running ==> final(self).simulation_time
                == old(self).simulation_time.saturating_add(
                    spec_scaled_dt(dt_ms, old(self).time_scale),
                ),
            // The statistics clock follows the same scaled step.
            old(self).running && old(self).statistics.statistics_enabled
                ==> final(self).statistics.total_simulation_time
                    == old(self).statistics.total_simulation_time.saturating_add(
                        spec_scaled_dt(dt_ms, old(self).time_scale),
                    ),
            // No exited vehicle survives a running tick.
            old(self).running ==> forall|i: int| 0 <= i < final(self).vehicles@.len()
                ==> !((#[trigger] final(self).vehicles@[i]).state is Exited),
            // The vehicle collection evolves by the tick pipeline: spawning,
            // motion with out-of-bounds retirement marking and counting,
            // state re-decisions, event spawns, and the final filter.
            old(self).running ==> spec_tick_vehicles(
                old(self).vehicles@,
                old(self).spawn_points@,
                spec_scaled_dt(dt_ms, old(self).time_scale),
                old(self).statistics.total_vehicles_processed,
                final(self).statistics.total_vehicles_processed,
                final(self).vehicles@,
            ),
            // Opposing lights agree at every intersection after a tick.
            final(self).intersections@.len() == old(self).intersections@.len(),
            old(self).running ==> forall|j: int| 0 <= j < final(self).intersections@.len() ==> {
                let inter = #[trigger] final(self).intersections@[j];
                &&& inter.lights.south.state == inter.lights.north.state
                &&& inter.lights.west.state == inter.lights.east.state
                &&& inter.id == old(self).intersections@[j].id
            },
    {
        if !self.running {
            return Ok(());
        }

        let delta_time = self.scaled_dt(dt_ms);
        self.simulation_time = self.simulation_time.saturating_add(delta_time);

        self.update_vehicle_spawning(delta_time);
        let ghost vs_spawned = self.vehicles@;
        self.update_vehicles(delta_time);
        let ghost vs_moved = self.vehicles@;
        self.update_intersections(delta_time);
        let ghost inters_mid = self.intersections@;
        let ghost vs_inter = self.vehicles@;
        self.update_events(delta_time);
        let ghost inters_after = self.intersections@;
        let ghost vs_events = self.vehicles@;
        let ghost processed_after = self.statistics.total_vehicles_processed;
        self.update_weather(delta_time);
        self.statistics.update(delta_time, &self.vehicles, &self.intersections);
        self.cleanup_vehicles();

        proof {
            assert(spec_tick_pipeline_step(
                old(self).vehicles@,
                old(self).spawn_points@,
                delta_time,
                old(self).statistics.total_vehicles_processed,
                self.statistics.total_vehicles_processed,
                vs_spawned,
                vs_events,
                self.vehicles@,
            )) by {
                assert(self.statistics.total_vehicles_processed == processed_after);
                assert forall|i: int| 0 <= i < vs_spawned.len()
                    implies spec_preserves_core(
                        spec_tick_motion(#[trigger] vs_spawned[i], delta_time),
                        vs_events[i],
                    ) by {
                    assert(vs_moved[i] == spec_tick_motion(vs_spawned[i], delta_time));
                    assert(spec_preserves_core(vs_moved[i], vs_inter[i]));
                    assert(vs_events[i] == vs_inter[i]);
                }
            }
            assert(spec_tick_vehicles(
                old(self).vehicles@,
                old(self).spawn_points@,
                delta_time,
                old(self).statistics.total_vehicles_processed,
                self.statistics.total_vehicles_processed,
                self.vehicles@,
            ));

            assert forall|j: int| 0 <= j < self.intersections@.len() implies ({
                let inter = #[trigger] self.intersections@[j];
                inter.lights.south.state == inter.lights.north.state
                    && inter.lights.west.state == inter.lights.east.state
                    && inter.id == old(self).intersections@[j].id
            }) by {
                assert(inters_mid[j].lights.south.state == inters_mid[j].lights.north.state
                    && inters_mid[j].lights.west.state == inters_mid[j].lights.east.state
                    && inters_mid[j].id == old(self).intersections@[j].id);
                assert(inters_after[j].id == inters_mid[j].id);
                assert(self.intersections@[j] == inters_after[j]);
            };
        }

        Ok(())
    }

    /// The scaled time step for this tick.
    fn scaled_dt(&self, dt_ms: u64) -> (r: u64)
        requires
            self.time_scale <= MAX_TIME_SCALE,
        ensures
            r == spec_scaled_dt(dt_ms, self.time_scale),
    {
        proof {
            vstd::arithmetic::mul::lemma_mul_upper_bound(
                dt_ms as int, u64::MAX as int, self.time_scale as int, MAX_TIME_SCALE as int,
            );
        }
        let wide = (dt_ms as u128) * (self.time_scale as u128) / 1000;
        if wide > u64::MAX as u128 {
            u64::MAX
        } else {
            wide as u64
        }
    }

    /// Attempt a spawn at every active spawn point, unless the vehicle cap
    /// is reached; a spawn is also suppressed while another vehicle stands
    /// within distance 2 of the entry point.
    fn update_vehicle_spawning(&mut self, dt_ms: u64)
        requires
            old(self).spawners@.len() == old(self).spawn_points@.len(),
            spec_distinct_ids(old(self).vehicles@),
            spec_ids_below(old(self).vehicles@, old(self).next_vehicle_id),
        ensures
            final(self).spawners@.len() == final(self).spawn_points@.len(),
            final(self).spawn_points == old(self).spawn_points,
            final(self).intersections == old(self).intersections,
            final(self).event_manager == old(self).event_manager,
            final(self).weather_system == old(self).weather_system,
            final(self).simulation_time == old(self).simulation_time,
            final(self).running == old(self).running,
            final(self).time_scale == old(self).time_scale,
            // Freshly assigned ids keep the whole collection distinct.
            spec_distinct_ids(final(self).vehicles@),
            spec_ids_below(final(self).vehicles@, final(self).next_vehicle_id),
            old(self).next_vehicle_id <= final(self).next_vehicle_id,
            // Existing vehicles are untouched; every added vehicle is a
            // fresh one at an active spawn point, heading its direction.
            final(self).vehicles@.len() >= old(self).vehicles@.len(),
            forall|i: int| 0 <= i < old(self).vehicles@.len()
                ==> #[trigger] final(self).vehicles@[i] == old(self).vehicles@[i],
            forall|i: int| old(self).vehicles@.len() <= i < final(self).vehicles@.len()
                ==> spec_spawned_from(
                    #[trigger] final(self).vehicles@[i],
                    old(self).spawn_points@,
                ),
            // No spawn lands within distance 2 of a vehicle that was already
            // live when the tick began.
            forall|i: int| old(self).vehicles@.len() <= i < final(self).vehicles@.len()
                ==> !(exists|k: int| 0 <= k < old(self).vehicles@.len()
                    && (#[trigger] old(self).vehicles@[k]).position.spec_distance_squared(
                        (#[trigger] final(self).vehicles@[i]).position,
                    ) < 4),
            final(self).statistics == (SimulationStats {
                total_vehicles_spawned: final(self).statistics.total_vehicles_spawned,
                ..old(self).statistics
            }),
            old(self).vehicles@.len() >= old(self).statistics.max_vehicles
                ==> *final(self) == *old(self),
    {
        if self.vehicles.len() >= self.statistics.max_vehicles {
            return;
        }

        let mut i: usize = 0;
        while i < self.spawn_points.len()
            invariant
                self.spawn_points == old(self).spawn_points,
                self.spawners@.len() == self.spawn_points@.len(),
                self.vehicles@.len() >= old(self).vehicles@.len(),
                forall|k: int| 0 <= k < old(self).vehicles@.len()
                    ==> #[trigger] self.vehicles@[k] == old(self).vehicles@[k],
                forall|k: int| old(self).vehicles@.len() <= k < self.vehicles@.len()
                    ==> spec_spawned_from(
                        #[trigger] self.vehicles@[k],
                        old(self).spawn_points@,
                    ),
                forall|m: int| old(self).vehicles@.len() <= m < self.vehicles@.len()
                    ==> !(exists|k: int| 0 <= k < old(self).vehicles@.len()
                        && (#[trigger] old(self).vehicles@[k]).position.spec_distance_squared(
                            (#[trigger] self.vehicles@[m]).position,
                        ) < 4),
                spec_distinct_ids(self.vehicles@),
                spec_ids_below(self.vehicles@, self.next_vehicle_id),
                old(self).next_vehicle_id <= self.next_vehicle_id,
                *self == (SimulationEngine {
                    vehicles: self.vehicles,
                    spawners: self.spawners,
                    statistics: self.statistics,
                    next_vehicle_id: self.next_vehicle_id,
                    ..*old(self)
                }),
                self.statistics == (SimulationStats {
                    total_vehicles_spawned: self.statistics.total_vehicles_spawned,
                    ..old(self).statistics
                }),
            decreases self.spawn_points@.len() - i,
        {
            let active = self.spawn_points[i].active;
            let position = self.spawn_points[i].position;
            let direction = self.spawn_points[i].direction;

            if active {
                let spawner = &mut self.spawners[i];
                spawner.update(dt_ms);
                let spawned = spawner.try_spawn(position, direction);

                match spawned {
                    Some(vehicle) => {
                        let position_clear = self.spawn_position_clear(&position);
                        if position_clear && self.next_vehicle_id < u32::MAX {
                            let ghost j = i as int;
                            // The engine assigns the id from its shared
                            // counter so ids are unique across spawn points.
                            let vehicle = Vehicle { id: self.next_vehicle_id, ..vehicle };
                            self.next_vehicle_id = self.next_vehicle_id + 1;
                            self.vehicles.push(vehicle);
                            self.statistics.total_vehicles_spawned =
                                self.statistics.total_vehicles_spawned.saturating_add(1);
                            proof {
                                let v = self.vehicles@.last();
                                assert(old(self).spawn_points@[j].active);
                                assert(v == (Vehicle {
                                    id: v.id,
                                    vehicle_type: v.vehicle_type,
                                    ..Vehicle::new_spec(
                                        v.id,
                                        old(self).spawn_points@[j].position,
                                        old(self).spawn_points@[j].direction,
                                    )
                                }));
                                assert(spec_spawned_from(v, old(self).spawn_points@));
                                assert forall|k: int| 0 <= k < old(self).vehicles@.len()
                                    implies (#[trigger] old(self).vehicles@[k])
                                        .position.spec_distance_squared(v.position) >= 4 by {
                                    assert(self.vehicles@[k] == old(self).vehicles@[k]);
                                }
                            }
                        }
                    }
                    None => {}
                }
            }
            i += 1;
        }
    }

    /// Whether no live vehicle stands within distance 2 of the spawn point.
    fn spawn_position_clear(&self, position: &Position) -> (r: bool)
        ensures
            r == !(exists|k: int| 0 <= k < self.vehicles@.len()
                && (#[trigger] self.vehicles@[k]).position.spec_distance_squared(*position) < 4),
    {
        let mut k: usize = 0;
        while k < self.vehicles.len()
            invariant
                k <= self.vehicles@.len(),
                forall|m: int| 0 <= m < k
                    ==> (#[trigger] self.vehicles@[m]).position.spec_distance_squared(*position) >= 4,
            decreases self.vehicles@.len() - k,
        {
            if self.vehicles[k].position.distance_squared_to(position) < 4 {
                return false;
            }
            k += 1;
        }
        true
    }

    /// Advance every vehicle's motion and mark any that has left the
    /// simulation bounds as exited.
    fn update_vehicles(&mut self, dt_ms: u64)
        ensures
            *final(self) == (SimulationEngine {
                vehicles: final(self).vehicles,
                statistics: final(self).statistics,
                ..*old(self)
            }),
            final(self).statistics == (SimulationStats {
                total_vehicles_processed: final(self).statistics.total_vehicles_processed,
                ..old(self).statistics
            }),
            final(self).vehicles@.len() == old(self).vehicles@.len(),
            forall|i: int| 0 <= i < old(self).vehicles@.len()
                ==> final(self).vehicles@[i]
                    == spec_tick_motion(#[trigger] old(self).vehicles@[i], dt_ms),
            // Every vehicle that left the bounds was counted as processed.
            final(self).statistics.total_vehicles_processed as int == vstd::math::min(
                old(self).statistics.total_vehicles_processed
                    + spec_count_exiting(old(self).vehicles@, dt_ms),
                u64::MAX as int,
            ),
            // Motion never touches ids.
            forall|i: int| 0 <= i < old(self).vehicles@.len()
                ==> (#[trigger] final(self).vehicles@[i]).id == old(self).vehicles@[i].id,
            spec_distinct_ids(old(self).vehicles@) ==> spec_distinct_ids(final(self).vehicles@),
            forall|b: u32| spec_ids_below(old(self).vehicles@, b)
                ==> #[trigger] spec_ids_below(final(self).vehicles@, b),
    {
        let mut i: usize = 0;
        while i < self.vehicles.len()
            invariant
                i <= old(self).vehicles@.len(),
                self.vehicles@.len() == old(self).vehicles@.len(),
                forall|k: int| i <= k < old(self).vehicles@.len()
                    ==> #[trigger] self.vehicles@[k] == old(self).vehicles@[k],
                forall|k: int| 0 <= k < i ==> self.vehicles@[k]
                    == spec_tick_motion(#[trigger] old(self).vehicles@[k], dt_ms),
                self.statistics.total_vehicles_processed as int == vstd::math::min(
                    old(self).statistics.total_vehicles_processed
                        + spec_count_exiting(old(self).vehicles@.subrange(0, i as int), dt_ms),
                    u64::MAX as int,
                ),
                *self == (SimulationEngine {
                    vehicles: self.vehicles,
                    statistics: self.statistics,
                    ..*old(self)
                }),
                self.statistics == (SimulationStats {
                    total_vehicles_processed: self.statistics.total_vehicles_processed,
                    ..old(self).statistics
                }),
            decreases old(self).vehicles@.len() - i,
        {
            proof {
                assert(old(self).vehicles@.subrange(0, i + 1).drop_last()
                    =~= old(self).vehicles@.subrange(0, i as int));
                assert(old(self).vehicles@.subrange(0, i + 1).last()
                    == old(self).vehicles@[i as int]);
            }
            let vehicle = &mut self.vehicles[i];
            vehicle.update(dt_ms);

            let x = vehicle.position.x;
            let y = vehicle.position.y;
            if x < -10 || x > 100 || y < -10 || y > 50 {
                vehicle.set_state(VehicleState::Exited);
                self.statistics.total_vehicles_processed =
                    self.statistics.total_vehicles_processed.saturating_add(1);
            }

            i += 1;
        }
        proof {
            assert(old(self).vehicles@.subrange(0, old(self).vehicles@.len() as int)
                =~= old(self).vehicles@);
            if spec_distinct_ids(old(self).vehicles@) {
                assert forall|a: int, b: int| 0 <= a < b < self.vehicles@.len()
                    implies self.vehicles@[a].id != self.vehicles@[b].id by {
                    assert(self.vehicles@[a].id == old(self).vehicles@[a].id);
                    assert(self.vehicles@[b].id == old(self).vehicles@[b].id);
                }
            }
            assert forall|bnd: u32| spec_ids_below(old(self).vehicles@, bnd)
                implies #[trigger] spec_ids_below(self.vehicles@, bnd) by {
                assert forall|i: int| 0 <= i < self.vehicles@.len()
                    implies (#[trigger] self.vehicles@[i]).id < bnd by {
                    assert(self.vehicles@[i].id == old(self).vehicles@[i].id);
                    assert(old(self).vehicles@[i].id < bnd);
                }
            }
        }
    }

    /// Run every intersection's per-tick update against the vehicle list.
    fn update_intersections(&mut self, dt_ms: u64)
        requires
            forall|j: int| 0 <= j < old(self).intersections@.len()
                ==> (#[trigger] old(self).intersections@[j]).wf(),
        ensures
            *final(self) == (SimulationEngine {
                intersections: final(self).intersections,
                vehicles: final(self).vehicles,
                ..*old(self)
            }),
            final(self).intersections@.len() == old(self).intersections@.len(),
            forall|j: int| 0 <= j < final(self).intersections@.len()
                ==> (#[trigger] final(self).intersections@[j]).wf(),
            forall|j: int| 0 <= j < final(self).intersections@.len() ==> {
                let inter = #[trigger] final(self).intersections@[j];
                &&& inter.lights.south.state == inter.lights.north.state
                &&& inter.lights.west.state == inter.lights.east.state
                &&& inter.id == old(self).intersections@[j].id
                &&& inter.position == old(self).intersections@[j].position
            },
            final(self).vehicles@.len() == old(self).vehicles@.len(),
            forall|i: int| 0 <= i < final(self).vehicles@.len()
                ==> spec_preserves_core(
                    #[trigger] old(self).vehicles@[i],
                    final(self).vehicles@[i],
                ),
            spec_distinct_ids(old(self).vehicles@) ==> spec_distinct_ids(final(self).vehicles@),
            forall|b: u32| spec_ids_below(old(self).vehicles@, b)
                ==> #[trigger] spec_ids_below(final(self).vehicles@, b),
    {
        let n = self.intersections.len();
        let mut j: usize = 0;
        while j < n
            invariant
                j <= n,
                n == self.intersections@.len(),
                self.intersections@.len() == old(self).intersections@.len(),
                forall|k: int| j <= k < old(self).intersections@.len()
                    ==> #[trigger] self.intersections@[k] == old(self).intersections@[k],
                forall|k: int| 0 <= k < old(self).intersections@.len()
                    ==> (#[trigger] old(self).intersections@[k]).wf(),
                forall|k: int| 0 <= k < j
                    ==> (#[trigger] self.intersections@[k]).wf(),
                forall|k: int| 0 <= k < j ==> {
                    let inter = #[trigger] self.intersections@[k];
                    &&& inter.lights.south.state == inter.lights.north.state
                    &&& inter.lights.west.state == inter.lights.east.state
                    &&& inter.id == old(self).intersections@[k].id
                    &&& inter.position == old(self).intersections@[k].position
                },
                self.vehicles@.len() == old(self).vehicles@.len(),
                forall|i: int| 0 <= i < self.vehicles@.len()
                    ==> spec_preserves_core(#[trigger] old(self).vehicles@[i], self.vehicles@[i]),
                *self == (SimulationEngine {
                    intersections: self.intersections,
                    vehicles: self.vehicles,
                    ..*old(self)
                }),
            decreases n - j,
        {
            let intersection = &mut self.intersections[j];
            intersection.update(&mut self.vehicles, dt_ms);
            j += 1;
        }
        proof {
            if spec_distinct_ids(old(self).vehicles@) {
                assert forall|a: int, b: int| 0 <= a < b < self.vehicles@.len()
                    implies self.vehicles@[a].id != self.vehicles@[b].id by {
                    assert(self.vehicles@[a].id == old(self).vehicles@[a].id);
                    assert(self.vehicles@[b].id == old(self).vehicles@[b].id);
                }
            }
            assert forall|bnd: u32| spec_ids_below(old(self).vehicles@, bnd)
                implies #[trigger] spec_ids_below(self.vehicles@, bnd) by {
                assert forall|i: int| 0 <= i < self.vehicles@.len()
                    implies (#[trigger] self.vehicles@[i]).id < bnd by {
                    assert(self.vehicles@[i].id == old(self).vehicles@[i].id);
                    assert(old(self).vehicles@[i].id < bnd);
                }
            }
        }
    }

    /// Run the event manager and dispatch each event it fired.
    fn update_events(&mut self, dt_ms: u64)
        requires
            old(self).event_manager.wf(),
            old(self).weather_system.wf(),
            forall|j: int| 0 <= j < old(self).intersections@.len()
                ==> (#[trigger] old(self).intersections@[j]).wf(),
            old(self).spawners@.len() == old(self).spawn_points@.len(),
            spec_distinct_ids(old(self).vehicles@),
            spec_ids_below(old(self).vehicles@, old(self).next_vehicle_id),
        ensures
            final(self).event_manager.wf(),
            final(self).weather_system.wf(),
            final(self).spawners@.len() == final(self).spawn_points@.len(),
            final(self).running == old(self).running,
            final(self).time_scale == old(self).time_scale,
            final(self).simulation_time == old(self).simulation_time,
            final(self).statistics == (SimulationStats {
                emergency_vehicles_spawned: final(self).statistics.emergency_vehicles_spawned,
                ..old(self).statistics
            }),
            final(self).intersections@.len() == old(self).intersections@.len(),
            forall|j: int| 0 <= j < final(self).intersections@.len()
                ==> (#[trigger] final(self).intersections@[j]).wf(),
            forall|j: int| 0 <= j < final(self).intersections@.len() ==> {
                let pre = #[trigger] old(self).intersections@[j];
                let post = final(self).intersections@[j];
                &&& post.id == pre.id
                &&& post.position == pre.position
                &&& (pre.lights.south.state == pre.lights.north.state
                    && pre.lights.west.state == pre.lights.east.state
                    ==> post.lights.south.state == post.lights.north.state
                        && post.lights.west.state == post.lights.east.state)
            },
            spec_distinct_ids(final(self).vehicles@),
            spec_ids_below(final(self).vehicles@, final(self).next_vehicle_id),
            old(self).next_vehicle_id <= final(self).next_vehicle_id,
            final(self).vehicles@.len() >= old(self).vehicles@.len(),
            forall|i: int| 0 <= i < old(self).vehicles@.len()
                ==> #[trigger] final(self).vehicles@[i] == old(self).vehicles@[i],
            forall|i: int| old(self).vehicles@.len() <= i < final(self).vehicles@.len()
                ==> (#[trigger] final(self).vehicles@[i]).vehicle_type is Emergency
                    && final(self).vehicles@[i].state is Moving,
    {
        let events = self.event_manager.update(dt_ms, &self.vehicles, &mut self.intersections);
        proof {
            assert forall|j: int| 0 <= j < self.intersections@.len()
                implies (#[trigger] self.intersections@[j]).wf() by {
                assert(old(self).intersections@[j].wf());
            }
        }

        let mut e: usize = 0;
        while e < events.len()
            invariant
                self.event_manager.wf(),
                self.weather_system.wf(),
                self.spawners@.len() == self.spawn_points@.len(),
                self.running == old(self).running,
                self.time_scale == old(self).time_scale,
                self.simulation_time == old(self).simulation_time,
                self.statistics == (SimulationStats {
                    emergency_vehicles_spawned: self.statistics.emergency_vehicles_spawned,
                    ..old(self).statistics
                }),
                self.intersections@.len() == old(self).intersections@.len(),
                forall|j: int| 0 <= j < self.intersections@.len()
                    ==> (#[trigger] self.intersections@[j]).wf(),
                forall|j: int| 0 <= j < self.intersections@.len() ==> {
                    let pre = #[trigger] old(self).intersections@[j];
                    let post = self.intersections@[j];
                    &&& post.id == pre.id
                    &&& post.position == pre.position
                    &&& (pre.lights.south.state == pre.lights.north.state
                        && pre.lights.west.state == pre.lights.east.state
                        ==> post.lights.south.state == post.lights.north.state
                            && post.lights.west.state == post.lights.east.state)
                },
                spec_distinct_ids(self.vehicles@),
                spec_ids_below(self.vehicles@, self.next_vehicle_id),
                old(self).next_vehicle_id <= self.next_vehicle_id,
                self.vehicles@.len() >= old(self).vehicles@.len(),
                forall|i: int| 0 <= i < old(self).vehicles@.len()
                    ==> #[trigger] self.vehicles@[i] == old(self).vehicles@[i],
                forall|i: int| old(self).vehicles@.len() <= i < self.vehicles@.len()
                    ==> (#[trigger] self.vehicles@[i]).vehicle_type is Emergency
                        && self.vehicles@[i].state is Moving,
            decreases events@.len() - e,
        {
            let event = events[e].clone();
            self.handle_simulation_event(event);
            e += 1;
        }
    }

    /// Apply one fired event to the simulation: spawn the emergency vehicle,
    /// forward the weather change, halve the incident target's efficiency,
    /// or scale every spawn point's base rate for rush hour. Other events
    /// have no engine-side effect.
    fn handle_simulation_event(&mut self, event: SimulationEvent)
        requires
            old(self).weather_system.wf(),
            forall|j: int| 0 <= j < old(self).intersections@.len()
                ==> (#[trigger] old(self).intersections@[j]).wf(),
            spec_distinct_ids(old(self).vehicles@),
            spec_ids_below(old(self).vehicles@, old(self).next_vehicle_id),
        ensures
            final(self).weather_system.wf(),
            final(self).event_manager == old(self).event_manager,
            final(self).spawners == old(self).spawners,
            final(self).statistics == (SimulationStats {
                emergency_vehicles_spawned: final(self).statistics.emergency_vehicles_spawned,
                ..old(self).statistics
            }),
            final(self).spawn_points@.len() == old(self).spawn_points@.len(),
            final(self).running == old(self).running,
            final(self).time_scale == old(self).time_scale,
            final(self).simulation_time == old(self).simulation_time,
            final(self).intersections@.len() == old(self).intersections@.len(),
            forall|j: int| 0 <= j < final(self).intersections@.len()
                ==> (#[trigger] final(self).intersections@[j]).wf(),
            forall|j: int| 0 <= j < final(self).intersections@.len() ==> {
                let pre = #[trigger] old(self).intersections@[j];
                let post = final(self).intersections@[j];
                &&& post.id == pre.id
                &&& post.position == pre.position
                &&& post.lights == pre.lights
            },
            spec_distinct_ids(final(self).vehicles@),
            spec_ids_below(final(self).vehicles@, final(self).next_vehicle_id),
            old(self).next_vehicle_id <= final(self).next_vehicle_id,
            final(self).vehicles@.len() >= old(self).vehicles@.len(),
            final(self).vehicles@.len() <= old(self).vehicles@.len() + 1,
            forall|i: int| 0 <= i < old(self).vehicles@.len()
                ==> #[trigger] final(self).vehicles@[i] == old(self).vehicles@[i],
            forall|i: int| old(self).vehicles@.len() <= i < final(self).vehicles@.len()
                ==> (#[trigger] final(self).vehicles@[i]).vehicle_type is Emergency
                    && final(self).vehicles@[i].state is Moving,
            // An emergency-spawn event appends exactly one emergency vehicle
            // with a fresh id from the shared counter (unless the counter is
            // exhausted) and counts it.
            event matches SimulationEvent::EmergencyVehicleSpawned { position, direction } ==> (
                if old(self).next_vehicle_id < u32::MAX {
                    &&& final(self).vehicles@.len() == old(self).vehicles@.len() + 1
                    &&& final(self).vehicles@.last() == (Vehicle {
                        vehicle_type: VehicleType::Emergency,
                        ..Vehicle::new_spec(old(self).next_vehicle_id, position, direction)
                    })
                    &&& final(self).next_vehicle_id == old(self).next_vehicle_id + 1
                    &&& final(self).statistics.emergency_vehicles_spawned
                        == old(self).statistics.emergency_vehicles_spawned.saturating_add(1)
                } else {
                    final(self).vehicles == old(self).vehicles
                }
            ),
            !(event matches SimulationEvent::EmergencyVehicleSpawned { .. })
                ==> final(self).vehicles == old(self).vehicles
                    && final(self).next_vehicle_id == old(self).next_vehicle_id
                    && final(self).statistics == old(self).statistics,
            // A weather-change event takes effect at once.
            event matches SimulationEvent::WeatherChanged { new_weather }
                ==> final(self).weather_system.current_weather == new_weather,
            !(event matches SimulationEvent::WeatherChanged { .. })
                ==> final(self).weather_system == old(self).weather_system,
            // An incident halves the first matching intersection's score and
            // touches nothing else.
            event matches SimulationEvent::TrafficIncident { intersection_id, .. } ==> {
                &&& (forall|j: int| 0 <= j < old(self).intersections@.len()
                    ==> (#[trigger] old(self).intersections@[j]).id != intersection_id)
                    ==> final(self).intersections == old(self).intersections
                &&& (exists|j: int| 0 <= j < old(self).intersections@.len()
                    && (#[trigger] old(self).intersections@[j]).id == intersection_id)
                    ==> exists|j: int| {
                        &&& 0 <= j < old(self).intersections@.len()
                        &&& (#[trigger] old(self).intersections@[j]).id == intersection_id
                        &&& (forall|k: int| 0 <= k < j
                            ==> (#[trigger] old(self).intersections@[k]).id != intersection_id)
                        &&& final(self).intersections@[j] == (Intersection {
                            efficiency_score: old(self).intersections@[j].efficiency_score / 2,
                            ..old(self).intersections@[j]
                        })
                        &&& (forall|k: int| 0 <= k < old(self).intersections@.len() && k != j
                            ==> #[trigger] final(self).intersections@[k]
                                == old(self).intersections@[k])
                    }
            },
            !(event matches SimulationEvent::TrafficIncident { .. })
                ==> final(self).intersections == old(self).intersections,
            // Rush hour scales every spawn point's base rate: doubled at the
            // start, halved at the end.
            event is RushHourStarted ==> forall|j: int| 0 <= j < old(self).spawn_points@.len()
                ==> #[trigger] final(self).spawn_points@[j] == (SpawnPoint {
                    spawn_rate: spec_scaled_rate(old(self).spawn_points@[j].spawn_rate, 2000),
                    ..old(self).spawn_points@[j]
                }),
            event is RushHourEnded ==> forall|j: int| 0 <= j < old(self).spawn_points@.len()
                ==> #[trigger] final(self).spawn_points@[j] == (SpawnPoint {
                    spawn_rate: spec_scaled_rate(old(self).spawn_points@[j].spawn_rate, 500),
                    ..old(self).spawn_points@[j]
                }),
            !(event is RushHourStarted) && !(event is RushHourEnded)
                ==> final(self).spawn_points == old(self).spawn_points,
    {
        match event {
            SimulationEvent::EmergencyVehicleSpawned { position, direction } => {
                if self.next_vehicle_id < u32::MAX {
                    let id = self.next_vehicle_id;
                    self.next_vehicle_id = self.next_vehicle_id + 1;
                    let emergency_vehicle = Vehicle::new(id, VehicleType::Emergency, position, direction);
                    self.vehicles.push(emergency_vehicle);
                    self.statistics.emergency_vehicles_spawned =
                        self.statistics.emergency_vehicles_spawned.saturating_add(1);
                }
            }
            SimulationEvent::WeatherChanged { new_weather } => {
                self.weather_system.set_current_weather(new_weather);
            }
            SimulationEvent::TrafficIncident { intersection_id, .. } => {
                let found = self.find_intersection_index(intersection_id);
                match found {
                    Some(idx) => {
                        let intersection = &mut self.intersections[idx];
                        intersection.efficiency_score = intersection.efficiency_score / 2;
                        proof {
                            assert(self.intersections@[idx as int] == (Intersection {
                                efficiency_score: old(self).intersections@[idx as int].efficiency_score / 2,
                                ..old(self).intersections@[idx as int]
                            }));
                        }
                    }
                    None => {}
                }
            }
            SimulationEvent::RushHourStarted => {
                self.scale_spawn_rates(2000);
            }
            SimulationEvent::RushHourEnded => {
                self.scale_spawn_rates(500);
            }
            _ => {}
        }
    }

    /// Scale every spawn point's base rate by a factor in thousandths,
    /// capped at the maximum spawn rate.
    fn scale_spawn_rates(&mut self, factor: u32)
        ensures
            *final(self) == (SimulationEngine { spawn_points: final(self).spawn_points, ..*old(self) }),
            final(self).spawn_points@.len() == old(self).spawn_points@.len(),
            forall|j: int| 0 <= j < old(self).spawn_points@.len() ==> {
                let pre = #[trigger] old(self).spawn_points@[j];
                let post = final(self).spawn_points@[j];
                post == (SpawnPoint { spawn_rate: spec_scaled_rate(pre.spawn_rate, factor), ..pre })
            },
    {
        let mut j: usize = 0;
        while j < self.spawn_points.len()
            invariant
                j <= old(self).spawn_points@.len(),
                self.spawn_points@.len() == old(self).spawn_points@.len(),
                forall|k: int| j <= k < old(self).spawn_points@.len()
                    ==> #[trigger] self.spawn_points@[k] == old(self).spawn_points@[k],
                forall|k: int| 0 <= k < j ==> #[trigger] self.spawn_points@[k]
                    == (SpawnPoint {
                        spawn_rate: spec_scaled_rate(old(self).spawn_points@[k].spawn_rate, factor),
                        ..old(self).spawn_points@[k]
                    }),
                *self == (SimulationEngine { spawn_points: self.spawn_points, ..*old(self) }),
            decreases old(self).spawn_points@.len() - j,
        {
            let sp = &mut self.spawn_points[j];
            sp.spawn_rate = scaled_rate(sp.spawn_rate, factor);
            j += 1;
        }
    }

    /// The id the next created vehicle will take: the shared counter, which
    /// stays above every live vehicle's id.
    pub fn get_next_vehicle_id(&self) -> (r: u32)
        ensures
            r == self.next_vehicle_id,
    {
        self.next_vehicle_id
    }

    /// The index of the first intersection with the given id, if any.
    fn find_intersection_index(&self, id: u32) -> (r: Option<usize>)
        ensures
            r matches Some(idx) ==> idx < self.intersections@.len()
                && self.intersections@[idx as int].id == id
                && (forall|j: int| 0 <= j < idx
                    ==> (#[trigger] self.intersections@[j]).id != id),
            r is None ==> forall|j: int| 0 <= j < self.intersections@.len()
                ==> (#[trigger] self.intersections@[j]).id != id,
    {
        let mut i: usize = 0;
        while i < self.intersections.len()
            invariant
                i <= self.intersections@.len(),
                forall|j: int| 0 <= j < i
                    ==> (#[trigger] self.intersections@[j]).id != id,
            decreases self.intersections@.len() - i,
        {
            if self.intersections[i].id == id {
                return Some(i);
            }
            i += 1;
        }
        None
    }

    /// Advance the weather and re-derive each spawner's effective rate: the
    /// spawn point's base rate scaled by the weather's traffic factor.
    fn update_weather(&mut self, dt_ms: u64)
        requires
            old(self).weather_system.wf(),
            old(self).spawners@.len() == old(self).spawn_points@.len(),
        ensures
            final(self).weather_system.wf(),
            final(self).spawners@.len() == final(self).spawn_points@.len(),
            *final(self) == (SimulationEngine {
                weather_system: final(self).weather_system,
                spawners: final(self).spawners,
                ..*old(self)
            }),
    {
        self.weather_system.update(dt_ms);

        let weather_multiplier = self.weather_system.get_traffic_multiplier();
        let mut j: usize = 0;
        while j < self.spawners.len()
            invariant
                self.weather_system.wf(),
                self.spawners@.len() == old(self).spawners@.len(),
                self.spawn_points@.len() == old(self).spawners@.len(),
                old(self).spawners@.len() == old(self).spawn_points@.len(),
                *self == (SimulationEngine {
                    weather_system: self.weather_system,
                    spawners: self.spawners,
                    ..*old(self)
                }),
            decreases self.spawners@.len() - j,
        {
            let base = self.spawn_points[j].spawn_rate;
            let effective = scaled_rate_u64(base, weather_multiplier as u64);
            let spawner = &mut self.spawners[j];
            spawner.set_spawn_rate(effective);
            j += 1;
        }
    }

    /// Remove every exited vehicle from the live collection.
    fn cleanup_vehicles(&mut self)
        ensures
            *final(self) == (SimulationEngine { vehicles: final(self).vehicles, ..*old(self) }),
            final(self).vehicles@ == old(self).vehicles@.filter(
                |v: Vehicle| !(v.state is Exited),
            ),
            forall|i: int| 0 <= i < final(self).vehicles@.len()
                ==> !((#[trigger] final(self).vehicles@[i]).state is Exited),
            spec_distinct_ids(old(self).vehicles@)
                && spec_ids_below(old(self).vehicles@, old(self).next_vehicle_id)
                ==> spec_distinct_ids(final(self).vehicles@)
                    && spec_ids_below(final(self).vehicles@, final(self).next_vehicle_id),
    {
        proof {
            if spec_distinct_ids(self.vehicles@)
                && spec_ids_below(self.vehicles@, self.next_vehicle_id) {
                crate::vehicles::lemma_filter_keeps_ids(
                    self.vehicles@,
                    |v: Vehicle| !(v.state is Exited),
                    self.next_vehicle_id,
                );
            }
        }
        let ghost orig = self.vehicles@;
        let ghost pred = |v: Vehicle| !(v.state is Exited);

        let mut kept: Vec<Vehicle> = Vec::new();
        let mut i: usize = 0;
        proof {
            assert(orig.subrange(0, 0) =~= Seq::<Vehicle>::empty());
            assert(Seq::<Vehicle>::empty().filter(pred) =~= Seq::<Vehicle>::empty()) by {
                reveal(Seq::filter);
            }
        }
        while i < self.vehicles.len()
            invariant
                i <= orig.len(),
                self.vehicles@ == orig,
                pred == (|v: Vehicle| !(v.state is Exited)),
                kept@ == orig.subrange(0, i as int).filter(pred),
                forall|k: int| 0 <= k < kept@.len()
                    ==> !((#[trigger] kept@[k]).state is Exited),
            decreases orig.len() - i,
        {
            let keep = !matches!(self.vehicles[i].state, VehicleState::Exited);
            proof {
                assert(orig.subrange(0, i + 1).drop_last() =~= orig.subrange(0, i as int));
                assert(orig.subrange(0, i + 1).last() == orig[i as int]);
                assert(keep == pred(orig[i as int]));
                reveal(Seq::filter);
            }
            if keep {
                let v = self.vehicles[i];
                kept.push(v);
            }
            i += 1;
        }
        proof {
            assert(orig.subrange(0, orig.len() as int) =~= orig);
        }
        self.vehicles = kept;
    }

    /// Spawn an emergency vehicle at the given spawn point. Fails exactly
    /// when the index does not name a spawn point.
    pub fn trigger_emergency_vehicle(&mut self, spawn_index: usize) -> (r: Result<(), SimulationError>)
        requires
            old(self).wf(),
        ensures
            final(self).wf(),
            r is Ok <==> spawn_index < old(self).spawn_points@.len(),
            r is Err ==> *final(self) == *old(self) && r == Err::<(), SimulationError>(
                SimulationError::InvalidSpawnPoint,
            ),
            // With ids left to assign, success appends exactly one emergency
            // vehicle at the spawn point, under the next fresh id, and counts
            // it.
            r is Ok && old(self).next_vehicle_id < u32::MAX ==> {
                &&& final(self).vehicles@.len() == old(self).vehicles@.len() + 1
                &&& final(self).vehicles@.last() == (Vehicle {
                    vehicle_type: VehicleType::Emergency,
                    ..Vehicle::new_spec(
                        old(self).next_vehicle_id,
                        old(self).spawn_points@[spawn_index as int].position,
                        old(self).spawn_points@[spawn_index as int].direction,
                    )
                })
                &&& final(self).next_vehicle_id == old(self).next_vehicle_id + 1
                &&& final(self).statistics.emergency_vehicles_spawned
                    == old(self).statistics.emergency_vehicles_spawned.saturating_add(1)
                &&& (forall|i: int| 0 <= i < old(self).vehicles@.len()
                    ==> #[trigger] final(self).vehicles@[i] == old(self).vehicles@[i])
            },
            r is Ok && old(self).next_vehicle_id == u32::MAX
                ==> final(self).vehicles == old(self).vehicles,
    {
        if spawn_index < self.spawn_points.len() {
            let position = self.spawn_points[spawn_index].position;
            let direction = self.spawn_points[spawn_index].direction;
            let event = SimulationEvent::EmergencyVehicleSpawned { position, direction };
            self.handle_simulation_event(event);
            Ok(())
        } else {
            Err(SimulationError::InvalidSpawnPoint)
        }
    }

    /// Set the weather by external command.
    pub fn set_weather(&mut self, weather: WeatherType)
        requires
            old(self).wf(),
        ensures
            final(self).wf(),
            final(self).weather_system.current_weather == weather,
            *final(self) == (SimulationEngine { weather_system: final(self).weather_system, ..*old(self) }),
    {
        self.weather_system.set_current_weather(weather);
    }

    /// Scale every spawn point's base rate up by a factor in thousandths.
    pub fn increase_traffic_density(&mut self, factor: u32)
        requires
            old(self).wf(),
        ensures
            final(self).wf(),
            forall|j: int| 0 <= j < old(self).spawn_points@.len() ==> {
                let pre = #[trigger] old(self).spawn_points@[j];
                final(self).spawn_points@[j]
                    == (SpawnPoint { spawn_rate: spec_scaled_rate(pre.spawn_rate, factor), ..pre })
            },
    {
        self.scale_spawn_rates(factor);
    }

    /// Scale every spawn point's base rate down by a factor in thousandths.
    pub fn decrease_traffic_density(&mut self, factor: u32)
        requires
            old(self).wf(),
        ensures
            final(self).wf(),
            forall|j: int| 0 <= j < old(self).spawn_points@.len() ==> {
                let pre = #[trigger] old(self).spawn_points@[j];
                final(self).spawn_points@[j]
                    == (SpawnPoint { spawn_rate: spec_scaled_rate(pre.spawn_rate, factor), ..pre })
            },
    {
        self.scale_spawn_rates(factor);
    }

    /// Get the current simulation statistics.
    pub fn get_statistics(&self) -> (r: &SimulationStats)
        ensures
            r == &self.statistics,
    {
        &self.statistics
    }

    /// Get the current weather.
    pub fn get_current_weather(&self) -> (r: WeatherType)
        ensures
            r == self.weather_system.current_weather,
    {
        self.weather_system.get_current_weather()
    }

    /// Get the number of live vehicles.
    pub fn get_active_vehicle_count(&self) -> (r: usize)
        ensures
            r == self.vehicles@.len(),
    {
        self.vehicles.len()
    }

    /// Get the intersection with the given id, if any.
    pub fn get_intersection(&self, id: u32) -> (r: Option<&Intersection>)
        ensures
            r matches Some(inter) ==> inter.id == id
                && (exists|j: int| 0 <= j < self.intersections@.len()
                    && #[trigger] self.intersections@[j] == *inter),
            r is None ==> forall|j: int| 0 <= j < self.intersections@.len()
                ==> (#[trigger] self.intersections@[j]).id != id,
    {
        let mut i: usize = 0;
        while i < self.intersections.len()
            invariant
                i <= self.intersections@.len(),
                forall|j: int| 0 <= j < i ==> (#[trigger] self.intersections@[j]).id != id,
            decreases self.intersections@.len() - i,
        {
            if self.intersections[i].id == id {
                proof {
                    assert(self.intersections@[i as int] == self.intersections@[i as int]);
                }
                return Some(&self.intersections[i]);
            }
            i += 1;
        }
        None
    }

    /// Whether any live vehicle is an emergency vehicle.
    pub fn has_emergency_vehicles(&self) -> (r: bool)
        ensures
            r == (exists|i: int| 0 <= i < self.vehicles@.len()
                && (#[trigger] self.vehicles@[i]).vehicle_type is Emergency),
    {
        let mut i: usize = 0;
        while i < self.vehicles.len()
            invariant
                i <= self.vehicles@.len(),
                forall|k: int| 0 <= k < i
                    ==> !((#[trigger] self.vehicles@[k]).vehicle_type is Emergency),
            decreases self.vehicles@.len() - i,
        {
            if self.vehicles[i].is_emergency() {
                return true;
            }
            i += 1;
        }
        false
    }

    /// The accumulated simulation time in milliseconds.
    pub fn get_uptime(&self) -> (r: u64)
        ensures
            r == self.simulation_time,
    {
        self.simulation_time
    }

    /// Set the time scale (thousandths), clamped between a tenth and five
    /// times real time.
    pub fn set_time_scale(&mut self, scale: u32)
        ensures
            *final(self) == (SimulationEngine {
                time_scale: Self::spec_clamped_scale(scale),
                ..*old(self)
            }),
            MIN_TIME_SCALE <= final(self).time_scale <= MAX_TIME_SCALE,
    {
        self.time_scale = clamp_time_scale(scale);
    }

    /// Get the current time scale (thousandths).
    pub fn get_time_scale(&self) -> (r: u32)
        ensures
            r == self.time_scale,
    {
        self.time_scale
    }

    /// Reset the simulation to its initial state: no vehicles, zero clock,
    /// fresh statistics, intersections back to full efficiency, spawners at
    /// the default half vehicle per second.
    pub fn reset(&mut self)
        requires
            old(self).wf(),
        ensures
            final(self).wf(),
            final(self).vehicles@.len() == 0,
            final(self).simulation_time == 0,
            final(self).statistics.total_vehicles_spawned == 0,
            final(self).intersections@.len() == old(self).intersections@.len(),
            forall|j: int| 0 <= j < final(self).intersections@.len() ==> {
                let inter = #[trigger] final(self).intersections@[j];
                inter.traffic_count == 0 && inter.efficiency_score == 100
            },
    {
        self.vehicles = Vec::new();
        self.simulation_time = 0;
        self.statistics.reset();

        let ghost orig_inters = self.intersections@;
        let mut j: usize = 0;
        while j < self.intersections.len()
            invariant
                j <= orig_inters.len(),
                self.intersections@.len() == orig_inters.len(),
                forall|k: int| j <= k < orig_inters.len()
                    ==> #[trigger] self.intersections@[k] == orig_inters[k],
                forall|k: int| 0 <= k < j ==> {
                    let inter = #[trigger] self.intersections@[k];
                    inter.traffic_count == 0 && inter.efficiency_score == 100
                        && inter == (Intersection {
                            traffic_count: 0,
                            efficiency_score: 100,
                            ..orig_inters[k]
                        })
                },
                *self == (SimulationEngine {
                    intersections: self.intersections,
                    vehicles: self.vehicles,
                    simulation_time: 0,
                    statistics: self.statistics,
                    ..*old(self)
                }),
                self.vehicles@.len() == 0,
                self.simulation_time == 0,
                self.statistics.total_vehicles_spawned == 0,
            decreases orig_inters.len() - j,
        {
            let intersection = &mut self.intersections[j];
            intersection.traffic_count = 0;
            intersection.efficiency_score = 100;
            j += 1;
        }

        let ghost orig_spawners = self.spawners@;
        let mut s: usize = 0;
        while s < self.spawners.len()
            invariant
                self.spawners@.len() == orig_spawners.len(),
                self.spawn_points@.len() == old(self).spawn_points@.len(),
                self.spawners@.len() == old(self).spawners@.len(),
                self.vehicles@.len() == 0,
                self.simulation_time == 0,
                self.statistics.total_vehicles_spawned == 0,
                self.intersections@.len() == old(self).intersections@.len(),
                forall|k: int| 0 <= k < self.intersections@.len() ==> {
                    let inter = #[trigger] self.intersections@[k];
                    inter.traffic_count == 0 && inter.efficiency_score == 100 && inter.wf()
                },
                MIN_TIME_SCALE <= self.time_scale <= MAX_TIME_SCALE,
                self.event_manager.wf(),
                self.weather_system.wf(),
            decreases self.spawners@.len() - s,
        {
            let spawner = &mut self.spawners[s];
            spawner.set_spawn_rate(500);
            s += 1;
        }
    }

    /// Whether a vehicle has left the simulation bounds.
    pub fn is_vehicle_out_of_bounds(&self, vehicle: &Vehicle) -> (r: bool)
        ensures
            r == spec_out_of_bounds(vehicle.position),
    {
        vehicle.position.x < -10 || vehicle.position.x > 100
            || vehicle.position.y < -10 || vehicle.position.y > 50
    }
}

/// Whether `v` is a fresh vehicle created at one of the given spawn points:
/// placed at an active point's position, heading its direction, moving, with
/// no accumulated time.
pub open spec fn spec_spawned_from(v: Vehicle, sps: Seq<SpawnPoint>) -> bool {
    exists|j: int| {
        &&& 0 <= j < sps.len()
        &&& (#[trigger] sps[j]).active
        &&& v == (Vehicle {
            id: v.id,
            vehicle_type: v.vehicle_type,
            ..Vehicle::new_spec(v.id, sps[j].position, sps[j].direction)
        })
    }
}

/// A base rate scaled by a factor in thousandths, capped at the maximum
/// spawn rate.
pub open spec fn spec_scaled_rate(rate: u32, factor: u32) -> u32 {
    let scaled = (rate as int) * (factor as int) / 1000;
    if scaled > MAX_SPAWN_RATE as int {
        MAX_SPAWN_RATE
    } else {
        scaled as u32
    }
}

/// Scale a rate by a factor in thousandths, capping the result.
fn scaled_rate(rate: u32, factor: u32) -> (r: u32)
    ensures
        r == spec_scaled_rate(rate, factor),
{
    proof {
        vstd::arithmetic::mul::lemma_mul_upper_bound(
            rate as int, u32::MAX as int, factor as int, u32::MAX as int,
        );
    }
    let wide = (rate as u64) * (factor as u64) / 1000;
    if wide > MAX_SPAWN_RATE as u64 {
        MAX_SPAWN_RATE
    } else {
        wide as u32
    }
}

/// Scale a rate by a factor in thousandths given as `u64`, capping the
/// result.
fn scaled_rate_u64(rate: u32, factor: u64) -> (r: u32)
    requires
        factor <= 0x1_0000_0000u64,
    ensures
        r as int == {
            let scaled = (rate as int) * (factor as int) / 1000;
            if scaled > MAX_SPAWN_RATE as int {
                MAX_SPAWN_RATE as int
            } else {
                scaled
            }
        },
{
    proof {
        vstd::arithmetic::mul::lemma_mul_upper_bound(
            rate as int, u32::MAX as int, factor as int, 0x1_0000_0000,
        );
        vstd::arithmetic::div_mod::lemma_div_pos_is_pos((rate as int) * (factor as int), 1000);
    }
    let wide = (rate as u128) * (factor as u128) / 1000;
    if wide > MAX_SPAWN_RATE as u128 {
        MAX_SPAWN_RATE
    } else {
        wide as u32
    }
}

/// Clamp a requested time scale to the scale bounds.
fn clamp_time_scale(scale: u32) -> (r: u32)
    ensures
        r == SimulationEngine::spec_clamped_scale(scale),
{
    if scale < MIN_TIME_SCALE {
        MIN_TIME_SCALE
    } else if scale > MAX_TIME_SCALE {
        MAX_TIME_SCALE
    } else {
        scale
    }
}

} // verus!
