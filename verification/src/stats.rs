//! Statistics tracking for the simulation: vehicle counts, wait times,
//! efficiency aggregation and congestion detection.

use vstd::prelude::*;
use crate::geometry::Direction;
use crate::intersection::Intersection;
use crate::ui::VehicleBreakdown;
use crate::vehicles::{Vehicle, VehicleState, VehicleType};

verus! {

/// How many vehicles of the collection have the given type.
pub open spec fn spec_count_type(vs: Seq<Vehicle>, t: VehicleType) -> nat
    decreases vs.len(),
{
    if vs.len() == 0 {
        0
    } else {
        spec_count_type(vs.drop_last(), t) + (if vs.last().vehicle_type == t { 1nat } else { 0nat })
    }
}

/// How many vehicles of the collection are in the given state.
pub open spec fn spec_count_state(vs: Seq<Vehicle>, s: VehicleState) -> nat
    decreases vs.len(),
{
    if vs.len() == 0 {
        0
    } else {
        spec_count_state(vs.drop_last(), s) + (if vs.last().state == s { 1nat } else { 0nat })
    }
}

/// The summed waited time of all waiting vehicles, in milliseconds.
pub open spec fn spec_sum_waiting(vs: Seq<Vehicle>) -> int
    decreases vs.len(),
{
    if vs.len() == 0 {
        0
    } else {
        spec_sum_waiting(vs.drop_last())
            + (if vs.last().state is Waiting { vs.last().waited_time as int } else { 0 })
    }
}

/// The largest waited time among waiting vehicles, in milliseconds; zero
/// when none waits.
pub open spec fn spec_peak_waiting(vs: Seq<Vehicle>) -> int
    decreases vs.len(),
{
    if vs.len() == 0 {
        0
    } else {
        let rest = spec_peak_waiting(vs.drop_last());
        if vs.last().state is Waiting && vs.last().waited_time as int > rest {
            vs.last().waited_time as int
        } else {
            rest
        }
    }
}

/// How many vehicles of the collection are stuck (waiting for over 30
/// seconds).
pub open spec fn spec_count_stuck(vs: Seq<Vehicle>) -> nat
    decreases vs.len(),
{
    if vs.len() == 0 {
        0
    } else {
        spec_count_stuck(vs.drop_last())
            + (if vs.last().state is Waiting && vs.last().waited_time > 30000 { 1nat } else { 0nat })
    }
}

/// Live-vehicle counts by state.
#[derive(Debug, Clone, PartialEq, Eq, Structural)]
pub struct StateBreakdown {
    pub moving: u32,
    pub waiting: u32,
    pub at_intersection: u32,
    pub exited: u32,
}

impl StateBreakdown {
    pub fn new() -> (r: Self)
        ensures
            r.moving == 0 && r.waiting == 0 && r.at_intersection == 0 && r.exited == 0,
    {
        Self { moving: 0, waiting: 0, at_intersection: 0, exited: 0 }
    }
}

/// Waiting-queue lengths by arrival direction.
#[derive(Debug, Clone, PartialEq, Eq, Structural)]
pub struct DirectionCounts {
    pub north: usize,
    pub south: usize,
    pub east: usize,
    pub west: usize,
}

impl DirectionCounts {
    pub fn new() -> (r: Self)
        ensures
            r.north == 0 && r.south == 0 && r.east == 0 && r.west == 0,
    {
        Self { north: 0, south: 0, east: 0, west: 0 }
    }
}

/// Per-intersection statistics. `last_emergency_time` holds the simulation
/// time (milliseconds) of the last counted emergency activation.
#[derive(Debug, Clone)]
pub struct IntersectionStats {
    pub id: u32,
    pub vehicles_processed: u64,
    pub average_efficiency: u32,
    pub total_wait_time: u64,
    pub emergency_activations: u32,
    pub light_cycle_count: u64,
    pub last_emergency_time: Option<u64>,
    pub peak_queue_length: usize,
    pub current_queue_lengths: DirectionCounts,
}

/// Efficiency snapshot for trend analysis; the timestamp is simulation time
/// in milliseconds.
#[derive(Debug, Clone)]
pub struct EfficiencySnapshot {
    pub timestamp: u64,
    pub overall_efficiency: u32,
    pub vehicle_count: usize,
    pub average_wait_time: u64,
    pub throughput: u64,
}

/// Congestion severity levels.
#[derive(Debug, Clone, Copy, PartialEq, Eq, PartialOrd, Ord, Structural)]
pub enum CongestionSeverity {
    Light,
    Moderate,
    Heavy,
    Severe,
}

/// The congestion severity for a queue of the given length; `None` for
/// queues of up to two vehicles, which do not count as congested.
pub open spec fn spec_severity_for(queue_length: int) -> Option<CongestionSeverity> {
    if queue_length <= 2 {
        None
    } else if queue_length <= 5 {
        Some(CongestionSeverity::Light)
    } else if queue_length <= 10 {
        Some(CongestionSeverity::Moderate)
    } else if queue_length <= 20 {
        Some(CongestionSeverity::Heavy)
    } else {
        Some(CongestionSeverity::Severe)
    }
}

/// Whether the list reports a congestion point for the intersection's given
/// direction, carrying its id and that direction's current queue length.
pub open spec fn spec_reports(points: Seq<CongestionPoint>, inter: Intersection, d: Direction) -> bool {
    exists|p: int| {
        &&& 0 <= p < points.len()
        &&& (#[trigger] points[p]).intersection_id == inter.id
        &&& points[p].direction == d
        &&& points[p].queue_length == inter.waiting_vehicles.spec_get(d).len()
    }
}

/// Whether the point records a congested direction of one of the given
/// intersections: its queue length matches that intersection's current list
/// and exceeds two.
pub open spec fn spec_sourced(point: CongestionPoint, is: Seq<Intersection>) -> bool {
    exists|k: int| {
        &&& 0 <= k < is.len()
        &&& point.intersection_id == (#[trigger] is[k]).id
        &&& point.queue_length == is[k].waiting_vehicles.spec_get(point.direction).len()
        &&& point.queue_length > 2
    }
}

/// A report for an intersection's direction survives any extension of the
/// list that keeps the existing entries.
proof fn lemma_reports_preserved(
    s1: Seq<CongestionPoint>,
    s2: Seq<CongestionPoint>,
    inter: Intersection,
    d: Direction,
)
    requires
        spec_reports(s1, inter, d),
        s1.len() <= s2.len(),
        forall|p: int| 0 <= p < s1.len() ==> #[trigger] s2[p] == s1[p],
    ensures
        spec_reports(s2, inter, d),
{
    let p = choose|p: int| {
        &&& 0 <= p < s1.len()
        &&& (#[trigger] s1[p]).intersection_id == inter.id
        &&& s1[p].direction == d
        &&& s1[p].queue_length == inter.waiting_vehicles.spec_get(d).len()
    };
    assert(s2[p] == s1[p]);
}

/// A detected congestion point.
#[derive(Debug, Clone)]
pub struct CongestionPoint {
    pub intersection_id: u32,
    pub direction: Direction,
    pub severity: CongestionSeverity,
    /// Queue length that triggered the detection.
    pub queue_length: usize,
    /// Simulation time of the detection, in milliseconds.
    pub detected_at: u64,
}

/// Every intersection of the collection carries a distinct id.
pub open spec fn spec_distinct_intersection_ids(is: Seq<Intersection>) -> bool {
    forall|i: int, j: int| 0 <= i < j < is.len() ==> is[i].id != is[j].id
}

/// Whether the rows hold an entry for the intersection carrying its current
/// efficiency score, processed count and queue lengths.
pub open spec fn spec_stats_has_row(rows: Seq<IntersectionStats>, inter: Intersection) -> bool {
    exists|k: int| {
        &&& 0 <= k < rows.len()
        &&& (#[trigger] rows[k]).id == inter.id
        &&& rows[k].average_efficiency == inter.efficiency_score
        &&& rows[k].vehicles_processed == inter.traffic_count
        &&& rows[k].current_queue_lengths.north == inter.waiting_vehicles.spec_get(Direction::North).len()
        &&& rows[k].current_queue_lengths.south == inter.waiting_vehicles.spec_get(Direction::South).len()
        &&& rows[k].current_queue_lengths.east == inter.waiting_vehicles.spec_get(Direction::East).len()
        &&& rows[k].current_queue_lengths.west == inter.waiting_vehicles.spec_get(Direction::West).len()
    }
}

/// Whether a ranking pair is the id and efficiency of one of the tracked
/// intersections.
pub open spec fn spec_ranked_from(p: (u32, u32), stats: Seq<IntersectionStats>) -> bool {
    exists|k: int| 0 <= k < stats.len()
        && (#[trigger] stats[k]).id == p.0 && stats[k].average_efficiency == p.1
}

/// The position before the first ranking entry whose score is strictly
/// below `score`: where a new entry with that score belongs to keep the list
/// sorted best-first.
fn ranking_insert_index(rankings: &Vec<(u32, u32)>, score: u32) -> (idx: usize)
    ensures
        idx <= rankings@.len(),
        forall|a: int| 0 <= a < idx ==> (#[trigger] rankings@[a]).1 >= score,
        idx < rankings@.len() ==> rankings@[idx as int].1 < score,
{
    let mut idx: usize = 0;
    while idx < rankings.len()
        invariant
            idx <= rankings@.len(),
            forall|a: int| 0 <= a < idx ==> (#[trigger] rankings@[a]).1 >= score,
        decreases rankings@.len() - idx,
    {
        if rankings[idx].1 < score {
            return idx;
        }
        idx += 1;
    }
    idx
}

/// Append a congestion point for the intersection's direction when more
/// than two vehicles wait there; banded by severity. With at most two
/// waiting, the list is unchanged.
fn record_congestion(
    points: &mut Vec<CongestionPoint>,
    intersection: &Intersection,
    direction: Direction,
    now: u64,
    all: Ghost<Seq<Intersection>>,
    at: Ghost<int>,
)
    requires
        0 <= at@ < all@.len(),
        all@[at@] == *intersection,
        forall|i: int| 0 <= i < old(points)@.len()
            ==> Some(#[trigger] old(points)@[i].severity)
                == spec_severity_for(old(points)@[i].queue_length as int),
        forall|p: int| 0 <= p < old(points)@.len()
            ==> spec_sourced(#[trigger] old(points)@[p], all@),
    ensures
        final(points)@.len() >= old(points)@.len(),
        forall|p: int| 0 <= p < old(points)@.len()
            ==> #[trigger] final(points)@[p] == old(points)@[p],
        forall|i: int| 0 <= i < final(points)@.len()
            ==> Some(#[trigger] final(points)@[i].severity)
                == spec_severity_for(final(points)@[i].queue_length as int),
        forall|p: int| 0 <= p < final(points)@.len()
            ==> spec_sourced(#[trigger] final(points)@[p], all@),
        intersection.waiting_vehicles.spec_get(direction).len() > 2
            ==> spec_reports(final(points)@, *intersection, direction),
        intersection.waiting_vehicles.spec_get(direction).len() <= 2
            ==> final(points)@ == old(points)@,
{
    let queue_length = intersection.waiting_vehicles.count(direction);
    if queue_length > 2 {
        let severity = if queue_length <= 5 {
            CongestionSeverity::Light
        } else if queue_length <= 10 {
            CongestionSeverity::Moderate
        } else if queue_length <= 20 {
            CongestionSeverity::Heavy
        } else {
            CongestionSeverity::Severe
        };
        let point = CongestionPoint {
            intersection_id: intersection.id,
            direction,
            severity,
            queue_length,
            detected_at: now,
        };
        points.push(point);
        proof {
            let n = final(points)@.len() - 1;
            assert(final(points)@[n] == point);
            assert(spec_sourced(point, all@)) by {
                assert(all@[at@].id == point.intersection_id
                    && point.queue_length
                        == all@[at@].waiting_vehicles.spec_get(point.direction).len()
                    && point.queue_length > 2);
            }
            assert(spec_reports(final(points)@, *intersection, direction));
        }
    }
}

/// Aggregated simulation statistics. All times are in milliseconds of
/// simulation time; counters saturate at their type's maximum.
#[derive(Debug)]
pub struct SimulationStats {
    pub total_vehicles_spawned: u64,
    pub total_vehicles_processed: u64,
    pub active_vehicles: usize,
    pub vehicle_counts: VehicleBreakdown,
    pub vehicles_by_state: StateBreakdown,
    pub emergency_vehicles_spawned: u32,
    pub average_wait_time: u64,
    pub peak_wait_time: u64,
    pub total_wait_time: u64,
    pub overall_efficiency: u32,
    pub throughput_per_minute: u64,
    pub intersection_stats: Vec<IntersectionStats>,
    pub traffic_light_changes: u64,
    pub emergency_overrides: u32,
    pub total_simulation_time: u64,
    pub efficiency_history: Vec<EfficiencySnapshot>,
    pub max_efficiency_samples: usize,
    pub congestion_points: Vec<CongestionPoint>,
    pub max_vehicles: usize,
    pub statistics_enabled: bool,
}

impl SimulationStats {
    /// Create a fresh statistics tracker.
    pub fn new() -> (r: Self)
        ensures
            r.total_vehicles_spawned == 0,
            r.total_vehicles_processed == 0,
            r.active_vehicles == 0,
            r.vehicle_counts == (VehicleBreakdown { cars: 0, trucks: 0, emergency: 0 }),
            r.vehicles_by_state == (StateBreakdown { moving: 0, waiting: 0, at_intersection: 0, exited: 0 }),
            r.emergency_vehicles_spawned == 0,
            r.average_wait_time == 0,
            r.peak_wait_time == 0,
            r.total_wait_time == 0,
            r.overall_efficiency == 100,
            r.throughput_per_minute == 0,
            r.intersection_stats@.len() == 0,
            r.traffic_light_changes == 0,
            r.emergency_overrides == 0,
            r.total_simulation_time == 0,
            r.efficiency_history@.len() == 0,
            r.max_efficiency_samples == 300,
            r.congestion_points@.len() == 0,
            r.max_vehicles == 100,
            r.statistics_enabled,
    {
        Self {
            total_vehicles_spawned: 0,
            total_vehicles_processed: 0,
            active_vehicles: 0,
            vehicle_counts: VehicleBreakdown::new(),
            vehicles_by_state: StateBreakdown::new(),
            emergency_vehicles_spawned: 0,
            average_wait_time: 0,
            peak_wait_time: 0,
            total_wait_time: 0,
            overall_efficiency: 100,
            throughput_per_minute: 0,
            intersection_stats: Vec::new(),
            traffic_light_changes: 0,
            emergency_overrides: 0,
            total_simulation_time: 0,
            efficiency_history: Vec::new(),
            max_efficiency_samples: 300,
            congestion_points: Vec::new(),
            max_vehicles: 100,
            statistics_enabled: true,
        }
    }

    /// Recount the live vehicles by type and state and recompute the wait
    /// statistics from the waiting vehicles.
    fn update_vehicle_statistics(&mut self, vehicles: &Vec<Vehicle>)
        ensures
            *final(self) == (SimulationStats {
                active_vehicles: vehicles@.len() as usize,
                vehicle_counts: final(self).vehicle_counts,
                vehicles_by_state: final(self).vehicles_by_state,
                average_wait_time: final(self).average_wait_time,
                peak_wait_time: final(self).peak_wait_time,
                total_wait_time: final(self).total_wait_time,
                ..*old(self)
            }),
            final(self).vehicle_counts.cars as int
                == vstd::math::min(spec_count_type(vehicles@, VehicleType::Car) as int, u32::MAX as int),
            final(self).vehicle_counts.trucks as int
                == vstd::math::min(spec_count_type(vehicles@, VehicleType::Truck) as int, u32::MAX as int),
            final(self).vehicle_counts.emergency as int
                == vstd::math::min(spec_count_type(vehicles@, VehicleType::Emergency) as int, u32::MAX as int),
            final(self).vehicles_by_state.waiting as int
                == vstd::math::min(spec_count_state(vehicles@, VehicleState::Waiting) as int, u32::MAX as int),
            final(self).vehicles_by_state.moving as int
                == vstd::math::min(spec_count_state(vehicles@, VehicleState::Moving) as int, u32::MAX as int),
            0 < spec_count_state(vehicles@, VehicleState::Waiting) <= u32::MAX ==> {
                &&& final(self).average_wait_time as int == (spec_sum_waiting(vehicles@)
                    / (spec_count_state(vehicles@, VehicleState::Waiting) as int)) as u64 as int
                &&& final(self).peak_wait_time as int == spec_peak_waiting(vehicles@)
            },
            spec_count_state(vehicles@, VehicleState::Waiting) == 0 ==> {
                &&& final(self).average_wait_time == old(self).average_wait_time
                &&& final(self).peak_wait_time == old(self).peak_wait_time
                &&& final(self).total_wait_time == old(self).total_wait_time
            },
    {
        self.active_vehicles = vehicles.len();

        let mut cars: u32 = 0;
        let mut trucks: u32 = 0;
        let mut emergency: u32 = 0;
        let mut moving: u32 = 0;
        let mut waiting: u32 = 0;
        let mut at_intersection: u32 = 0;
        let mut exited: u32 = 0;
        let mut wait_sum: u128 = 0;
        let mut wait_peak: u64 = 0;

        let ghost vs = vehicles@;
        let mut i: usize = 0;
        while i < vehicles.len()
            invariant
                i <= vs.len(),
                vehicles@ == vs,
                cars as int == vstd::math::min(spec_count_type(vs.subrange(0, i as int), VehicleType::Car) as int, u32::MAX as int),
                trucks as int == vstd::math::min(spec_count_type(vs.subrange(0, i as int), VehicleType::Truck) as int, u32::MAX as int),
                emergency as int == vstd::math::min(spec_count_type(vs.subrange(0, i as int), VehicleType::Emergency) as int, u32::MAX as int),
                moving as int == vstd::math::min(spec_count_state(vs.subrange(0, i as int), VehicleState::Moving) as int, u32::MAX as int),
                waiting as int == vstd::math::min(spec_count_state(vs.subrange(0, i as int), VehicleState::Waiting) as int, u32::MAX as int),
                at_intersection as int == vstd::math::min(spec_count_state(vs.subrange(0, i as int), VehicleState::AtIntersection) as int, u32::MAX as int),
                exited as int == vstd::math::min(spec_count_state(vs.subrange(0, i as int), VehicleState::Exited) as int, u32::MAX as int),
                wait_sum as int == spec_sum_waiting(vs.subrange(0, i as int)),
                wait_peak as int == spec_peak_waiting(vs.subrange(0, i as int)),
                wait_sum as int <= (i as int) * (u64::MAX as int),
            decreases vs.len() - i,
        {
            proof {
                assert(vs.subrange(0, i + 1).drop_last() =~= vs.subrange(0, i as int));
                assert(vs.subrange(0, i + 1).last() == vs[i as int]);
                assert((i + 1) * (u64::MAX as int) == (i as int) * (u64::MAX as int) + u64::MAX as int)
                    by (nonlinear_arith);
            }
            let v = &vehicles[i];
            match v.vehicle_type {
                VehicleType::Car => { cars = cars.saturating_add(1); }
                VehicleType::Truck => { trucks = trucks.saturating_add(1); }
                VehicleType::Emergency => { emergency = emergency.saturating_add(1); }
            }
            match v.state {
                VehicleState::Moving => { moving = moving.saturating_add(1); }
                VehicleState::Waiting => {
                    waiting = waiting.saturating_add(1);
                    wait_sum = wait_sum + v.waited_time as u128;
                    if v.waited_time > wait_peak {
                        wait_peak = v.waited_time;
                    }
                }
                VehicleState::AtIntersection => { at_intersection = at_intersection.saturating_add(1); }
                VehicleState::Exited => { exited = exited.saturating_add(1); }
            }
            i += 1;
        }
        proof {
            assert(vs.subrange(0, vs.len() as int) =~= vs);
        }

        self.vehicle_counts = VehicleBreakdown { cars, trucks, emergency };
        self.vehicles_by_state = StateBreakdown { moving, waiting, at_intersection, exited };

        if waiting > 0 {
            let average = #[verifier::truncate] ((wait_sum / (waiting as u128)) as u64);
            proof {
                assert(waiting == u32::MAX || spec_count_state(vs, VehicleState::Waiting) == waiting);
            }
            self.average_wait_time = average;
            self.peak_wait_time = wait_peak;
            #[verifier::truncate]
            let sum_clamped = if wait_sum > u64::MAX as u128 { u64::MAX } else { wait_sum as u64 };
            self.total_wait_time = self.total_wait_time.saturating_add(sum_clamped);
        }
    }

    /// Find the row tracking the given intersection id.
    fn find_stats_index(&self, id: u32) -> (r: Option<usize>)
        ensures
            r matches Some(idx) ==> idx < self.intersection_stats@.len()
                && self.intersection_stats@[idx as int].id == id,
    {
        let mut i: usize = 0;
        while i < self.intersection_stats.len()
            invariant
                i <= self.intersection_stats@.len(),
            decreases self.intersection_stats@.len() - i,
        {
            if self.intersection_stats[i].id == id {
                return Some(i);
            }
            i += 1;
        }
        None
    }

    /// Update the per-intersection rows from the intersections' own state:
    /// efficiency, processed count, queue lengths with their peak, and
    /// emergency activations counted at most once per minute.
    fn update_intersection_statistics(&mut self, intersections: &Vec<Intersection>)
        ensures
            *final(self) == (SimulationStats {
                intersection_stats: final(self).intersection_stats,
                ..*old(self)
            }),
            // With distinct intersection ids, every intersection ends up
            // with a row carrying its current numbers.
            spec_distinct_intersection_ids(intersections@)
                ==> forall|j: int| 0 <= j < intersections@.len()
                    ==> spec_stats_has_row(
                        final(self).intersection_stats@,
                        #[trigger] intersections@[j],
                    ),
    {
        let mut j: usize = 0;
        while j < intersections.len()
            invariant
                j <= intersections@.len(),
                *self == (SimulationStats { intersection_stats: self.intersection_stats, ..*old(self) }),
                spec_distinct_intersection_ids(intersections@)
                    ==> forall|k: int| 0 <= k < j
                        ==> spec_stats_has_row(
                            self.intersection_stats@,
                            #[trigger] intersections@[k],
                        ),
            decreases intersections@.len() - j,
        {
            let ghost rows_pre = self.intersection_stats@;
            let intersection = &intersections[j];
            let id = intersection.id;
            let idx = match self.find_stats_index(id) {
                Some(idx) => idx,
                None => {
                    self.intersection_stats.push(IntersectionStats {
                        id,
                        vehicles_processed: 0,
                        average_efficiency: 100,
                        total_wait_time: 0,
                        emergency_activations: 0,
                        light_cycle_count: 0,
                        last_emergency_time: None,
                        peak_queue_length: 0,
                        current_queue_lengths: DirectionCounts::new(),
                    });
                    self.intersection_stats.len() - 1
                }
            };

            let now = self.total_simulation_time;
            let entry = &mut self.intersection_stats[idx];
            entry.average_efficiency = intersection.efficiency_score;
            entry.vehicles_processed = intersection.traffic_count;

            if intersection.emergency_active {
                let count_it = match entry.last_emergency_time {
                    None => true,
                    Some(t) => now.saturating_sub(t) > 60000,
                };
                if count_it {
                    entry.emergency_activations = entry.emergency_activations.saturating_add(1);
                    entry.last_emergency_time = Some(now);
                }
            }

            let north = intersection.waiting_vehicles.count(Direction::North);
            let south = intersection.waiting_vehicles.count(Direction::South);
            let east = intersection.waiting_vehicles.count(Direction::East);
            let west = intersection.waiting_vehicles.count(Direction::West);
            entry.current_queue_lengths = DirectionCounts { north, south, east, west };
            if north > entry.peak_queue_length {
                entry.peak_queue_length = north;
            }
            if south > entry.peak_queue_length {
                entry.peak_queue_length = south;
            }
            if east > entry.peak_queue_length {
                entry.peak_queue_length = east;
            }
            if west > entry.peak_queue_length {
                entry.peak_queue_length = west;
            }

            proof {
                let rows = self.intersection_stats@;
                let inter = intersections@[j as int];
                assert(0 <= idx < rows.len() && rows[idx as int].id == inter.id
                    && rows[idx as int].average_efficiency == inter.efficiency_score
                    && rows[idx as int].vehicles_processed == inter.traffic_count
                    && rows[idx as int].current_queue_lengths.north
                        == inter.waiting_vehicles.spec_get(Direction::North).len()
                    && rows[idx as int].current_queue_lengths.south
                        == inter.waiting_vehicles.spec_get(Direction::South).len()
                    && rows[idx as int].current_queue_lengths.east
                        == inter.waiting_vehicles.spec_get(Direction::East).len()
                    && rows[idx as int].current_queue_lengths.west
                        == inter.waiting_vehicles.spec_get(Direction::West).len());
                assert(spec_stats_has_row(rows, inter));
                if spec_distinct_intersection_ids(intersections@) {
                    assert forall|k: int| 0 <= k < j + 1
                        implies spec_stats_has_row(rows, #[trigger] intersections@[k]) by {
                        if k < j {
                            // The witness row of an earlier intersection has a
                            // different id, so this iteration left it alone.
                            let w = choose|w: int| {
                                &&& 0 <= w < rows_pre.len()
                                &&& (#[trigger] rows_pre[w]).id == intersections@[k].id
                                &&& rows_pre[w].average_efficiency == intersections@[k].efficiency_score
                                &&& rows_pre[w].vehicles_processed == intersections@[k].traffic_count
                                &&& rows_pre[w].current_queue_lengths.north
                                    == intersections@[k].waiting_vehicles.spec_get(Direction::North).len()
                                &&& rows_pre[w].current_queue_lengths.south
                                    == intersections@[k].waiting_vehicles.spec_get(Direction::South).len()
                                &&& rows_pre[w].current_queue_lengths.east
                                    == intersections@[k].waiting_vehicles.spec_get(Direction::East).len()
                                &&& rows_pre[w].current_queue_lengths.west
                                    == intersections@[k].waiting_vehicles.spec_get(Direction::West).len()
                            };
                            assert(intersections@[k].id != inter.id);
                            assert(w != idx);
                            assert(rows[w] == rows_pre[w]);
                        }
                    }
                }
            }
            j += 1;
        }
    }

    /// Rebuild the congestion points from the current queue lengths: every
    /// direction with more than two waiting vehicles is reported, banded by
    /// severity, and nothing else is.
    fn identify_congestion_points(&mut self, intersections: &Vec<Intersection>)
        ensures
            *final(self) == (SimulationStats {
                congestion_points: final(self).congestion_points,
                ..*old(self)
            }),
            forall|i: int| 0 <= i < final(self).congestion_points@.len()
                ==> Some(#[trigger] final(self).congestion_points@[i].severity)
                    == spec_severity_for(final(self).congestion_points@[i].queue_length as int),
            // Sound: every reported point is a currently congested direction
            // of one of the intersections.
            forall|p: int| 0 <= p < final(self).congestion_points@.len()
                ==> spec_sourced(#[trigger] final(self).congestion_points@[p], intersections@),
            // Complete: every congested direction of every intersection is
            // reported.
            forall|k: int, d: Direction| 0 <= k < intersections@.len()
                && (#[trigger] intersections@[k].waiting_vehicles.spec_get(d)).len() > 2
                ==> spec_reports(final(self).congestion_points@, intersections@[k], d),
    {
        let now = self.total_simulation_time;
        let mut points: Vec<CongestionPoint> = Vec::new();
        let mut j: usize = 0;
        while j < intersections.len()
            invariant
                j <= intersections@.len(),
                *self == *old(self),
                forall|i: int| 0 <= i < points@.len()
                    ==> Some(#[trigger] points@[i].severity)
                        == spec_severity_for(points@[i].queue_length as int),
                forall|p: int| 0 <= p < points@.len()
                    ==> spec_sourced(#[trigger] points@[p], intersections@),
                forall|k: int, d: Direction| 0 <= k < j
                    && (#[trigger] intersections@[k].waiting_vehicles.spec_get(d)).len() > 2
                    ==> spec_reports(points@, intersections@[k], d),
            decreases intersections@.len() - j,
        {
            let intersection = &intersections[j];
            let ghost pre_points = points@;
            record_congestion(&mut points, intersection, Direction::North, now, Ghost(intersections@), Ghost(j as int));
            let ghost after_north = points@;
            record_congestion(&mut points, intersection, Direction::South, now, Ghost(intersections@), Ghost(j as int));
            let ghost after_south = points@;
            record_congestion(&mut points, intersection, Direction::East, now, Ghost(intersections@), Ghost(j as int));
            let ghost after_east = points@;
            record_congestion(&mut points, intersection, Direction::West, now, Ghost(intersections@), Ghost(j as int));
            proof {
                assert forall|k: int, d: Direction| 0 <= k < j + 1
                    && (#[trigger] intersections@[k].waiting_vehicles.spec_get(d)).len() > 2
                    implies spec_reports(points@, intersections@[k], d) by {
                    if k < j {
                        lemma_reports_preserved(pre_points, points@, intersections@[k], d);
                    } else {
                        match d {
                            Direction::North => {
                                lemma_reports_preserved(after_north, points@, intersections@[k], d);
                            }
                            Direction::South => {
                                lemma_reports_preserved(after_south, points@, intersections@[k], d);
                            }
                            Direction::East => {
                                lemma_reports_preserved(after_east, points@, intersections@[k], d);
                            }
                            Direction::West => {}
                        }
                    }
                }
            }
            j += 1;
        }
        self.congestion_points = points;
    }

    /// The stuck-vehicle congestion penalty in thousandths: up to 300 (a 30%
    /// cut) as the share of stuck vehicles approaches all of them.
    pub open spec fn spec_congestion_penalty(vs: Seq<Vehicle>) -> int {
        if vs.len() == 0 {
            0
        } else {
            (spec_count_stuck(vs) * 300) as int / (vs.len() as int)
        }
    }

    /// Compute the stuck-vehicle congestion penalty (thousandths).
    fn calculate_congestion_penalty(&self, vehicles: &Vec<Vehicle>) -> (r: u64)
        ensures
            r as int == Self::spec_congestion_penalty(vehicles@),
            r <= 300,
    {
        let ghost vs = vehicles@;
        let mut stuck: u64 = 0;
        let mut i: usize = 0;
        while i < vehicles.len()
            invariant
                i <= vs.len(),
                vehicles@ == vs,
                stuck == spec_count_stuck(vs.subrange(0, i as int)),
                stuck <= i,
            decreases vs.len() - i,
        {
            proof {
                assert(vs.subrange(0, i + 1).drop_last() =~= vs.subrange(0, i as int));
                assert(vs.subrange(0, i + 1).last() == vs[i as int]);
            }
            let v = &vehicles[i];
            if v.is_stuck() {
                stuck = stuck + 1;
            }
            i += 1;
        }
        proof {
            assert(vs.subrange(0, vs.len() as int) =~= vs);
        }

        if vehicles.len() == 0 {
            0
        } else {
            proof {
                assert((stuck as int) * 300 <= (vs.len() as int) * 300) by (nonlinear_arith)
                    requires stuck <= vs.len();
                assert(((stuck as int) * 300) / (vs.len() as int) <= 300) by {
                    vstd::arithmetic::div_mod::lemma_multiply_divide_le(
                        (stuck as int) * 300,
                        vs.len() as int,
                        300,
                    );
                }
                assert(((stuck as int) * 300) / (vs.len() as int) >= 0) by {
                    vstd::arithmetic::div_mod::lemma_div_pos_is_pos((stuck as int) * 300, vs.len() as int);
                }
            }
            (((stuck as u128) * 300) / (vehicles.len() as u128)) as u64
        }
    }

    /// Update all statistics from the current simulation state. Does nothing
    /// while statistics collection is disabled.
    pub fn update(&mut self, dt_ms: u64, vehicles: &Vec<Vehicle>, intersections: &Vec<Intersection>)
        ensures
            !old(self).statistics_enabled ==> *final(self) == *old(self),
            final(self).statistics_enabled == old(self).statistics_enabled,
            final(self).max_vehicles == old(self).max_vehicles,
            final(self).total_vehicles_spawned == old(self).total_vehicles_spawned,
            final(self).total_vehicles_processed == old(self).total_vehicles_processed,
            final(self).emergency_vehicles_spawned == old(self).emergency_vehicles_spawned,
            old(self).statistics_enabled ==> {
                &&& final(self).total_simulation_time
                    == old(self).total_simulation_time.saturating_add(dt_ms)
                &&& final(self).active_vehicles == vehicles@.len()
                &&& final(self).efficiency_history@.len() <= old(self).max_efficiency_samples
                    || final(self).efficiency_history@.len() <= old(self).efficiency_history@.len() + 1
            },
            // With distinct intersection ids, every intersection is tracked
            // by a row carrying its current numbers.
            old(self).statistics_enabled && spec_distinct_intersection_ids(intersections@)
                ==> forall|j: int| 0 <= j < intersections@.len()
                    ==> spec_stats_has_row(
                        final(self).intersection_stats@,
                        #[trigger] intersections@[j],
                    ),
    {
        if !self.statistics_enabled {
            return;
        }

        // Pin the vehicle count to a machine word for the passes below.
        let vehicle_count = vehicles.len();
        proof {
            assert(vehicles@.len() == vehicle_count);
        }
        self.total_simulation_time = self.total_simulation_time.saturating_add(dt_ms);

        self.update_vehicle_statistics(vehicles);
        self.update_intersection_statistics(intersections);
        self.update_performance_metrics(vehicles);
        self.update_efficiency_tracking();
        self.identify_congestion_points(intersections);
    }

    /// Recompute the overall efficiency as the mean of the intersections'
    /// scores, cut by the stuck-vehicle congestion penalty, and the
    /// throughput in vehicles per minute.
    fn update_performance_metrics(&mut self, vehicles: &Vec<Vehicle>)
        ensures
            *final(self) == (SimulationStats {
                overall_efficiency: final(self).overall_efficiency,
                throughput_per_minute: final(self).throughput_per_minute,
                ..*old(self)
            }),
    {
        let n = self.intersection_stats.len();
        if n > 0 {
            let mut sum: u128 = 0;
            let mut i: usize = 0;
            while i < n
                invariant
                    n == self.intersection_stats@.len(),
                    i <= n,
                    *self == *old(self),
                    sum as int <= (i as int) * 0x1_0000_0000,
                decreases n - i,
            {
                proof {
                    assert((i + 1) * 0x1_0000_0000
                        == (i as int) * 0x1_0000_0000 + 0x1_0000_0000) by (nonlinear_arith);
                }
                sum = sum + self.intersection_stats[i].average_efficiency as u128;
                i += 1;
            }
            proof {
                assert(sum as int / (n as int) <= 0x1_0000_0000) by {
                    vstd::arithmetic::div_mod::lemma_multiply_divide_le(
                        sum as int, n as int, 0x1_0000_0000,
                    );
                    assert(sum as int <= (n as int) * 0x1_0000_0000) by (nonlinear_arith)
                        requires sum as int <= (n as int) * 0x1_0000_0000;
                }
                assert(sum as int / (n as int) >= 0) by {
                    vstd::arithmetic::div_mod::lemma_div_pos_is_pos(sum as int, n as int);
                }
            }
            let mean = sum / (n as u128);

            let penalty = self.calculate_congestion_penalty(vehicles);
            // The penalty is at most 300 thousandths, so the factor stays in
            // [700, 1000].
            let factor: u64 = 1000 - penalty;
            proof {
                vstd::arithmetic::mul::lemma_mul_upper_bound(
                    mean as int, 0x1_0000_0000, factor as int, 1000,
                );
            }
            let adjusted = #[verifier::truncate] (((mean * (factor as u128)) / 1000) as u32);
            self.overall_efficiency = adjusted;
        }

        let elapsed = self.total_simulation_time;
        if elapsed > 0 {
            // Vehicles processed per minute of simulation time.
            let processed = self.total_vehicles_processed as u128;
            proof {
                vstd::arithmetic::mul::lemma_mul_upper_bound(
                    processed as int, u64::MAX as int, 60000, 60000,
                );
            }
            let throughput = #[verifier::truncate] (((processed * 60000u128) / (elapsed as u128)) as u64);
            self.throughput_per_minute = throughput;
        }
    }

    /// Record an efficiency snapshot and cap the history length.
    fn update_efficiency_tracking(&mut self)
        ensures
            *final(self) == (SimulationStats {
                efficiency_history: final(self).efficiency_history,
                ..*old(self)
            }),
            final(self).efficiency_history@.len() <= old(self).efficiency_history@.len() + 1,
    {
        let snapshot = EfficiencySnapshot {
            timestamp: self.total_simulation_time,
            overall_efficiency: self.overall_efficiency,
            vehicle_count: self.active_vehicles,
            average_wait_time: self.average_wait_time,
            throughput: self.throughput_per_minute,
        };

        self.efficiency_history.push(snapshot);

        if self.efficiency_history.len() > self.max_efficiency_samples {
            self.efficiency_history.remove(0);
        }
    }

    /// The recent efficiency values: those of snapshots no older than
    /// `window_ms` before the current simulation time.
    pub fn get_efficiency_trend(&self, window_ms: u64) -> (r: Vec<u32>)
        ensures
            r@.len() <= self.efficiency_history@.len(),
    {
        let cutoff = self.total_simulation_time.saturating_sub(window_ms);
        let mut out: Vec<u32> = Vec::new();
        let mut i: usize = 0;
        while i < self.efficiency_history.len()
            invariant
                i <= self.efficiency_history@.len(),
                out@.len() <= i,
            decreases self.efficiency_history@.len() - i,
        {
            if self.efficiency_history[i].timestamp >= cutoff {
                out.push(self.efficiency_history[i].overall_efficiency);
            }
            i += 1;
        }
        out
    }

    /// Reset all statistics to a fresh tracker.
    pub fn reset(&mut self)
        ensures
            final(self).total_vehicles_spawned == 0,
            final(self).total_vehicles_processed == 0,
            final(self).total_simulation_time == 0,
            final(self).overall_efficiency == 100,
            final(self).statistics_enabled,
            final(self).max_vehicles == 100,
    {
        *self = Self::new();
    }

    /// Enable or disable statistics collection.
    pub fn set_enabled(&mut self, enabled: bool)
        ensures
            *final(self) == (SimulationStats { statistics_enabled: enabled, ..*old(self) }),
    {
        self.statistics_enabled = enabled;
    }

    /// The share of each vehicle type among the live vehicles, in
    /// thousandths; all zero when no vehicle is live.
    pub fn get_vehicle_type_percentages(&self) -> (r: VehicleBreakdown)
        ensures
            ({
                let total = self.vehicle_counts.cars + self.vehicle_counts.trucks
                    + self.vehicle_counts.emergency;
                if total == 0 {
                    r == (VehicleBreakdown { cars: 0, trucks: 0, emergency: 0 })
                } else {
                    &&& r.cars as int == (self.vehicle_counts.cars * 1000) as int / total
                    &&& r.trucks as int == (self.vehicle_counts.trucks * 1000) as int / total
                    &&& r.emergency as int == (self.vehicle_counts.emergency * 1000) as int / total
                }
            }),
    {
        let cars = self.vehicle_counts.cars as u64;
        let trucks = self.vehicle_counts.trucks as u64;
        let emergency = self.vehicle_counts.emergency as u64;
        let total = cars + trucks + emergency;
        if total == 0 {
            return VehicleBreakdown { cars: 0, trucks: 0, emergency: 0 };
        }
        proof {
            assert((cars * 1000) as int / (total as int) <= 1000) by {
                vstd::arithmetic::div_mod::lemma_multiply_divide_le(
                    (cars * 1000) as int, total as int, 1000,
                );
                assert((cars * 1000) as int <= (total as int) * 1000) by (nonlinear_arith)
                    requires cars <= total;
            }
            assert((trucks * 1000) as int / (total as int) <= 1000) by {
                vstd::arithmetic::div_mod::lemma_multiply_divide_le(
                    (trucks * 1000) as int, total as int, 1000,
                );
                assert((trucks * 1000) as int <= (total as int) * 1000) by (nonlinear_arith)
                    requires trucks <= total;
            }
            assert((emergency * 1000) as int / (total as int) <= 1000) by {
                vstd::arithmetic::div_mod::lemma_multiply_divide_le(
                    (emergency * 1000) as int, total as int, 1000,
                );
                assert((emergency * 1000) as int <= (total as int) * 1000) by (nonlinear_arith)
                    requires emergency <= total;
            }
            assert((cars * 1000) as int / (total as int) >= 0) by {
                vstd::arithmetic::div_mod::lemma_div_pos_is_pos((cars * 1000) as int, total as int);
            }
            assert((trucks * 1000) as int / (total as int) >= 0) by {
                vstd::arithmetic::div_mod::lemma_div_pos_is_pos((trucks * 1000) as int, total as int);
            }
            assert((emergency * 1000) as int / (total as int) >= 0) by {
                vstd::arithmetic::div_mod::lemma_div_pos_is_pos((emergency * 1000) as int, total as int);
            }
        }
        VehicleBreakdown {
            cars: (cars * 1000 / total) as u32,
            trucks: (trucks * 1000 / total) as u32,
            emergency: (emergency * 1000 / total) as u32,
        }
    }

    /// The intersections ranked by their efficiency score, best first: pairs
    /// of intersection id and score, one per tracked intersection.
    pub fn get_intersection_rankings(&self) -> (r: Vec<(u32, u32)>)
        ensures
            r@.len() == self.intersection_stats@.len(),
            forall|i: int, j: int| 0 <= i < j < r@.len() ==> r@[i].1 >= r@[j].1,
            forall|i: int| 0 <= i < r@.len()
                ==> spec_ranked_from(#[trigger] r@[i], self.intersection_stats@),
    {
        let mut rankings: Vec<(u32, u32)> = Vec::new();
        let mut i: usize = 0;
        while i < self.intersection_stats.len()
            invariant
                rankings@.len() == i,
                i <= self.intersection_stats@.len(),
                forall|a: int, b: int| 0 <= a < b < rankings@.len()
                    ==> rankings@[a].1 >= rankings@[b].1,
                forall|a: int| 0 <= a < rankings@.len()
                    ==> spec_ranked_from(#[trigger] rankings@[a], self.intersection_stats@),
            decreases self.intersection_stats@.len() - i,
        {
            let entry = (self.intersection_stats[i].id, self.intersection_stats[i].average_efficiency);
            proof {
                assert(entry.0 == self.intersection_stats@[i as int].id
                    && entry.1 == self.intersection_stats@[i as int].average_efficiency);
            }

            // Insert before the first strictly worse score.
            let idx = ranking_insert_index(&rankings, entry.1);

            let ghost orig = rankings@;
            rankings.insert(idx, entry);
            proof {
                orig.insert_ensures(idx as int, entry);
                assert forall|a: int, b: int| 0 <= a < b < rankings@.len()
                    implies rankings@[a].1 >= rankings@[b].1 by {
                    if a == idx {
                        assert(rankings@[b] == orig[b - 1]);
                        assert(orig[b - 1].1 < entry.1 || b - 1 >= idx);
                        if b - 1 > idx - 1 && b - 1 >= idx {
                            if idx < orig.len() {
                                assert(orig[idx as int].1 < entry.1);
                                if b - 1 > idx {
                                    assert(orig[idx as int].1 >= orig[b - 1].1);
                                }
                            }
                        }
                    } else if b == idx {
                        assert(rankings@[a] == orig[a]);
                        assert(orig[a].1 >= entry.1);
                    } else {
                        let a0: int = if a < idx { a } else { a - 1 };
                        let b0: int = if b < idx { b } else { b - 1 };
                        assert(rankings@[a] == orig[a0] && rankings@[b] == orig[b0] && a0 < b0);
                    }
                }
                assert forall|a: int| 0 <= a < rankings@.len()
                    implies spec_ranked_from(#[trigger] rankings@[a], self.intersection_stats@) by {
                    if a == idx {
                        assert(rankings@[a] == entry);
                        assert(self.intersection_stats@[i as int].id == entry.0
                            && self.intersection_stats@[i as int].average_efficiency == entry.1);
                    } else {
                        let a0: int = if a < idx { a } else { a - 1 };
                        assert(rankings@[a] == orig[a0]);
                    }
                }
            }
            i += 1;
        }
        rankings
    }
}

} // verus!
