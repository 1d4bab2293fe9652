//! Intersection management and traffic flow control.

use vstd::prelude::*;
use crate::geometry::{Direction, Position};
use crate::lights::{LightState, TrafficLight};
use crate::vehicles::{Vehicle, VehicleState};

verus! {

/// How long an intersection stays in emergency mode after the last nearby
/// emergency vehicle, in milliseconds.
pub const DEFAULT_EMERGENCY_DURATION: u64 = 15000;

/// One traffic light per compass direction.
#[derive(Debug, Clone)]
pub struct DirectionalLights {
    pub north: TrafficLight,
    pub south: TrafficLight,
    pub east: TrafficLight,
    pub west: TrafficLight,
}

impl DirectionalLights {
    /// The light governing direction `d`.
    pub open spec fn spec_get(self, d: Direction) -> TrafficLight {
        match d {
            Direction::North => self.north,
            Direction::South => self.south,
            Direction::East => self.east,
            Direction::West => self.west,
        }
    }

    /// Borrow the light governing direction `d`.
    pub fn get(&self, d: Direction) -> (r: &TrafficLight)
        ensures
            *r == self.spec_get(d),
    {
        match d {
            Direction::North => &self.north,
            Direction::South => &self.south,
            Direction::East => &self.east,
            Direction::West => &self.west,
        }
    }

    /// A single light after setting its override to `active`.
    pub open spec fn spec_light_with_override(l: TrafficLight, active: bool) -> TrafficLight {
        if active {
            TrafficLight { emergency_override: true, state: LightState::Red, time_in_state: 0, ..l }
        } else {
            TrafficLight { emergency_override: false, ..l }
        }
    }

    /// All four lights after setting every override to `active`.
    pub open spec fn spec_with_all_overrides(self, active: bool) -> DirectionalLights {
        DirectionalLights {
            north: Self::spec_light_with_override(self.north, active),
            south: Self::spec_light_with_override(self.south, active),
            east: Self::spec_light_with_override(self.east, active),
            west: Self::spec_light_with_override(self.west, active),
        }
    }

    /// Set the emergency override of all four lights at once.
    pub fn set_all_overrides(&mut self, active: bool)
        ensures
            *final(self) == old(self).spec_with_all_overrides(active),
    {
        self.north.set_emergency_override(active);
        self.south.set_emergency_override(active);
        self.east.set_emergency_override(active);
        self.west.set_emergency_override(active);
        proof {
            assert(final(self).north == Self::spec_light_with_override(old(self).north, active));
        }
    }
}

/// The ids of the vehicles waiting at an intersection, one list per arrival
/// direction. Insertion order is arrival order, and an id appears at most
/// once per list.
#[derive(Debug, Clone)]
pub struct WaitingQueues {
    pub north: Vec<u32>,
    pub south: Vec<u32>,
    pub east: Vec<u32>,
    pub west: Vec<u32>,
}

impl WaitingQueues {
    /// The waiting list for direction `d`.
    pub open spec fn spec_get(self, d: Direction) -> Seq<u32> {
        match d {
            Direction::North => self.north@,
            Direction::South => self.south@,
            Direction::East => self.east@,
            Direction::West => self.west@,
        }
    }

    /// No id appears twice in any one direction's list.
    pub open spec fn no_dups(self) -> bool {
        &&& self.north@.no_duplicates()
        &&& self.south@.no_duplicates()
        &&& self.east@.no_duplicates()
        &&& self.west@.no_duplicates()
    }

    /// The number of waiting vehicles over all four directions.
    pub open spec fn spec_total(self) -> int {
        self.north@.len() + self.south@.len() + self.east@.len() + self.west@.len() as int
    }

    pub fn empty() -> (r: Self)
        ensures
            forall|d: Direction| #[trigger] r.spec_get(d) == Seq::<u32>::empty(),
            r.no_dups(),
            r.spec_total() == 0,
    {
        let r = Self { north: Vec::new(), south: Vec::new(), east: Vec::new(), west: Vec::new() };
        proof {
            assert forall|d: Direction| #[trigger] r.spec_get(d) == Seq::<u32>::empty() by {
                assert(r.north@ =~= Seq::<u32>::empty());
                assert(r.south@ =~= Seq::<u32>::empty());
                assert(r.east@ =~= Seq::<u32>::empty());
                assert(r.west@ =~= Seq::<u32>::empty());
            }
        }
        r
    }

    /// Whether `id` waits in direction `d`.
    pub fn contains(&self, d: Direction, id: u32) -> (r: bool)
        ensures
            r == self.spec_get(d).contains(id),
    {
        match d {
            Direction::North => vec_contains_id(&self.north, id),
            Direction::South => vec_contains_id(&self.south, id),
            Direction::East => vec_contains_id(&self.east, id),
            Direction::West => vec_contains_id(&self.west, id),
        }
    }

    /// Enqueue `id` in direction `d` unless it is already there.
    pub fn add(&mut self, d: Direction, id: u32)
        ensures
            final(self).spec_get(d) == (if old(self).spec_get(d).contains(id) {
                old(self).spec_get(d)
            } else {
                old(self).spec_get(d).push(id)
            }),
            forall|o: Direction| o != d ==> #[trigger] final(self).spec_get(o) == old(self).spec_get(o),
            old(self).no_dups() ==> final(self).no_dups(),
    {
        match d {
            Direction::North => vec_add_id(&mut self.north, id),
            Direction::South => vec_add_id(&mut self.south, id),
            Direction::East => vec_add_id(&mut self.east, id),
            Direction::West => vec_add_id(&mut self.west, id),
        }
    }

    /// Remove `id` from direction `d`'s list, if present.
    pub fn remove(&mut self, d: Direction, id: u32)
        requires
            old(self).no_dups(),
        ensures
            final(self).no_dups(),
            forall|x: u32| #[trigger] final(self).spec_get(d).contains(x)
                <==> old(self).spec_get(d).contains(x) && x != id,
            final(self).spec_get(d).len() == old(self).spec_get(d).len()
                - (if old(self).spec_get(d).contains(id) { 1int } else { 0int }),
            forall|o: Direction| o != d ==> #[trigger] final(self).spec_get(o) == old(self).spec_get(o),
    {
        match d {
            Direction::North => vec_remove_id(&mut self.north, id),
            Direction::South => vec_remove_id(&mut self.south, id),
            Direction::East => vec_remove_id(&mut self.east, id),
            Direction::West => vec_remove_id(&mut self.west, id),
        }
    }

    /// The number of ids waiting in direction `d`.
    pub fn count(&self, d: Direction) -> (r: usize)
        ensures
            r == self.spec_get(d).len(),
    {
        match d {
            Direction::North => self.north.len(),
            Direction::South => self.south.len(),
            Direction::East => self.east.len(),
            Direction::West => self.west.len(),
        }
    }

    /// The number of ids waiting over all directions.
    pub fn total(&self) -> (r: u128)
        ensures
            r as int == self.spec_total(),
    {
        self.north.len() as u128 + self.south.len() as u128 + self.east.len() as u128
            + self.west.len() as u128
    }
}

/// Whether `id` occurs in the list.
fn vec_contains_id(list: &Vec<u32>, id: u32) -> (r: bool)
    ensures
        r == list@.contains(id),
{
    let mut i: usize = 0;
    while i < list.len()
        invariant
            i <= list@.len(),
            forall|j: int| 0 <= j < i ==> list@[j] != id,
        decreases list@.len() - i,
    {
        if list[i] == id {
            return true;
        }
        i += 1;
    }
    proof {
        assert(!list@.contains(id)) by {
            if list@.contains(id) {
                let j = choose|j: int| 0 <= j < list@.len() && list@[j] == id;
                assert(list@[j] != id);
            }
        }
    }
    false
}

/// Append `id` unless it is already present.
fn vec_add_id(list: &mut Vec<u32>, id: u32)
    ensures
        final(list)@ == (if old(list)@.contains(id) { old(list)@ } else { old(list)@.push(id) }),
        old(list)@.no_duplicates() ==> final(list)@.no_duplicates(),
{
    if !vec_contains_id(list, id) {
        list.push(id);
        proof {
            if old(list)@.no_duplicates() {
                assert forall|a: int, b: int|
                    0 <= a < list@.len() && 0 <= b < list@.len() && a != b
                    implies list@[a] != list@[b] by {
                    if a < list@.len() - 1 && b < list@.len() - 1 {
                        assert(old(list)@[a] != old(list)@[b]);
                    } else if a == list@.len() - 1 {
                        assert(old(list)@.contains(old(list)@[b])) by {
                            assert(old(list)@[b] == old(list)@[b]);
                        }
                    } else {
                        assert(old(list)@.contains(old(list)@[a])) by {
                            assert(old(list)@[a] == old(list)@[a]);
                        }
                    }
                }
            }
        }
    }
}

/// Remove the occurrence of `id`, if any; the list must be free of
/// duplicates, so at most one occurrence exists.
fn vec_remove_id(list: &mut Vec<u32>, id: u32)
    requires
        old(list)@.no_duplicates(),
    ensures
        final(list)@.no_duplicates(),
        forall|x: u32| #[trigger] final(list)@.contains(x) <==> old(list)@.contains(x) && x != id,
        final(list)@.len() == old(list)@.len()
            - (if old(list)@.contains(id) { 1int } else { 0int }),
{
    let ghost orig = list@;
    let mut i: usize = 0;
    while i < list.len()
        invariant
            i <= list@.len(),
            list@ == orig,
            orig == old(list)@,
            orig.no_duplicates(),
            forall|j: int| 0 <= j < i ==> orig[j] != id,
        decreases list@.len() - i,
    {
        if list[i] == id {
            list.remove(i);
            proof {
                orig.remove_ensures(i as int);
                assert(list@ == orig.remove(i as int));
                assert(orig.contains(id)) by {
                    assert(orig[i as int] == id);
                }
                assert forall|x: u32| list@.contains(x) implies orig.contains(x) && x != id by {
                    let j = choose|j: int| 0 <= j < list@.len() && list@[j] == x;
                    if j < i {
                        assert(orig[j] == x);
                    } else {
                        assert(orig[j + 1] == x);
                    }
                    assert(x != id) by {
                        if j < i {
                            assert(orig[j] != id);
                        } else {
                            assert(orig[j + 1] == x && j + 1 != i && orig[i as int] == id);
                        }
                    }
                }
                assert forall|x: u32| orig.contains(x) && x != id implies list@.contains(x) by {
                    let j = choose|j: int| 0 <= j < orig.len() && orig[j] == x;
                    if j < i {
                        assert(list@[j] == x);
                    } else {
                        assert(j != i);
                        assert(list@[j - 1] == x);
                    }
                }
                assert(list@.no_duplicates()) by {
                    assert forall|a: int, b: int|
                        0 <= a < list@.len() && 0 <= b < list@.len() && a != b
                        implies list@[a] != list@[b] by {
                        let a0: int = if a < i { a } else { a + 1 };
                        let b0: int = if b < i { b } else { b + 1 };
                        assert(orig[a0] == list@[a] && orig[b0] == list@[b] && a0 != b0);
                    }
                }
            }
            return;
        }
        i += 1;
    }
    proof {
        assert(!orig.contains(id)) by {
            if orig.contains(id) {
                let j = choose|j: int| 0 <= j < orig.len() && orig[j] == id;
                assert(orig[j] != id);
            }
        }
    }
}

/// The efficiency score for a count of waiting vehicles: 100 less 2 points
/// per waiting vehicle, floored at 0, plus a 10-point bonus while emergency
/// mode is active.
pub open spec fn spec_efficiency(total_waiting: int, emergency_active: bool) -> u32 {
    ((if total_waiting >= 50 { 0int } else { 100 - 2 * total_waiting })
        + (if emergency_active { 10int } else { 0int })) as u32
}

/// Holding the emergency state fixed, the efficiency score never rises when
/// the waiting count grows; and the fixed points of the formula hold:
/// no waiting scores 100, ten waiting score 80, sixty score 0.
pub proof fn lemma_efficiency_monotone(w1: int, w2: int, emergency_active: bool)
    requires
        0 <= w1 <= w2,
    ensures
        spec_efficiency(w1, emergency_active) >= spec_efficiency(w2, emergency_active),
        spec_efficiency(0, false) == 100,
        spec_efficiency(10, false) == 80,
        spec_efficiency(60, false) == 0,
{
}

/// Does a vehicle count as a nearby active emergency vehicle for an
/// intersection at `pos`? True for a non-exited emergency vehicle within
/// Euclidean distance 5 (squared distance below 25).
pub open spec fn spec_emergency_counts(v: Vehicle, pos: Position) -> bool {
    &&& v.vehicle_type is Emergency
    &&& v.position.spec_distance_squared(pos) < 25
    &&& !(v.state is Exited)
}

/// Whether any vehicle of the collection triggers emergency mode at `pos`.
pub open spec fn spec_emergency_near(vs: Seq<Vehicle>, pos: Position) -> bool {
    exists|i: int| 0 <= i < vs.len() && spec_emergency_counts(vs[i], pos)
}

/// How many vehicles of the collection stand on the intersection cell itself
/// (squared distance 0) and are not exited; each such vehicle counts toward
/// the processed-traffic tally once per update.
pub open spec fn spec_count_entering(vs: Seq<Vehicle>, pos: Position) -> nat
    decreases vs.len(),
{
    if vs.len() == 0 {
        0
    } else {
        spec_count_entering(vs.drop_last(), pos) + (if spec_enters(vs.last(), pos) {
            1nat
        } else {
            0nat
        })
    }
}

/// A vehicle is entering the intersection when it is not exited and stands on
/// the intersection cell.
pub open spec fn spec_enters(v: Vehicle, pos: Position) -> bool {
    !(v.state is Exited) && v.position.spec_distance_squared(pos) == 0
}

/// Intersection controller managing traffic lights and vehicle flow.
///
/// `emergency_elapsed` accumulates the milliseconds since emergency mode was
/// activated; it is meaningful only while `emergency_active` holds.
#[derive(Debug)]
pub struct Intersection {
    pub id: u32,
    pub position: Position,
    pub lights: DirectionalLights,
    pub waiting_vehicles: WaitingQueues,
    pub emergency_active: bool,
    pub emergency_elapsed: u64,
    pub emergency_duration: u64,
    pub traffic_count: u64,
    pub efficiency_score: u32,
}

impl Intersection {
    /// Internal consistency: every light honors its override; the override is
    /// always applied to all four lights together; emergency mode implies the
    /// override; waiting lists hold no duplicate ids.
    pub open spec fn wf(self) -> bool {
        &&& self.lights.north.wf()
        &&& self.lights.south.wf()
        &&& self.lights.east.wf()
        &&& self.lights.west.wf()
        &&& self.lights.south.emergency_override == self.lights.north.emergency_override
        &&& self.lights.east.emergency_override == self.lights.north.emergency_override
        &&& self.lights.west.emergency_override == self.lights.north.emergency_override
        &&& self.emergency_active ==> self.lights.north.emergency_override
        &&& self.waiting_vehicles.no_dups()
    }

    /// Create a new intersection: north and south seeded green, east and west
    /// red, no waiting vehicles, emergency mode off, full efficiency.
    pub fn new(id: u32, position: Position) -> (r: Self)
        ensures
            r.id == id,
            r.position == position,
            r.lights.north.state is Green,
            r.lights.south.state is Green,
            r.lights.east.state is Red,
            r.lights.west.state is Red,
            r.lights.north.direction == Direction::North,
            r.lights.south.direction == Direction::South,
            r.lights.east.direction == Direction::East,
            r.lights.west.direction == Direction::West,
            forall|d: Direction| {
                let l = #[trigger] r.lights.spec_get(d);
                l.time_in_state == 0 && !l.emergency_override
                    && l.green_duration == crate::lights::DEFAULT_GREEN_DURATION
                    && l.yellow_duration == crate::lights::DEFAULT_YELLOW_DURATION
                    && l.red_duration == crate::lights::DEFAULT_RED_DURATION
            },
            forall|d: Direction| #[trigger] r.waiting_vehicles.spec_get(d) == Seq::<u32>::empty(),
            !r.emergency_active,
            r.emergency_elapsed == 0,
            r.emergency_duration == DEFAULT_EMERGENCY_DURATION,
            r.traffic_count == 0,
            r.efficiency_score == 100,
            r.wf(),
    {
        let mut north = TrafficLight::new(Direction::North);
        let mut south = TrafficLight::new(Direction::South);
        let east = TrafficLight::new(Direction::East);
        let west = TrafficLight::new(Direction::West);
        north.state = LightState::Green;
        south.state = LightState::Green;

        Self {
            id,
            position,
            lights: DirectionalLights { north, south, east, west },
            waiting_vehicles: WaitingQueues::empty(),
            emergency_active: false,
            emergency_elapsed: 0,
            emergency_duration: DEFAULT_EMERGENCY_DURATION,
            traffic_count: 0,
            efficiency_score: 100,
        }
    }

    /// The intersection after the emergency-detection step, given whether an
    /// emergency vehicle is near and the time step.
    pub open spec fn spec_emergency_step(self, near: bool, dt_ms: u64) -> Intersection {
        if !self.emergency_active && near {
            Intersection {
                emergency_active: true,
                emergency_elapsed: 0,
                lights: self.lights.spec_with_all_overrides(true),
                ..self
            }
        } else if self.emergency_active {
            let e = self.emergency_elapsed.saturating_add(dt_ms);
            if !near && e >= self.emergency_duration {
                Intersection {
                    emergency_active: false,
                    emergency_elapsed: 0,
                    lights: self.lights.spec_with_all_overrides(false),
                    ..self
                }
            } else {
                Intersection { emergency_elapsed: e, ..self }
            }
        } else {
            self
        }
    }

    /// The intersection after the light-update step: skipped entirely while
    /// emergency mode is active; otherwise every light advances by `dt_ms`
    /// and then south mirrors north and west mirrors east.
    pub open spec fn spec_lights_step(self, dt_ms: u64) -> Intersection {
        if self.emergency_active {
            self
        } else {
            let n = self.lights.north.spec_update(dt_ms);
            let e = self.lights.east.spec_update(dt_ms);
            let s = self.lights.south.spec_update(dt_ms);
            let w = self.lights.west.spec_update(dt_ms);
            Intersection {
                lights: DirectionalLights {
                    north: n,
                    east: e,
                    south: TrafficLight { state: n.state, time_in_state: n.time_in_state, ..s },
                    west: TrafficLight { state: e.state, time_in_state: e.time_in_state, ..w },
                },
                ..self
            }
        }
    }

    /// The intersection state against which the flow step judges vehicles:
    /// after emergency detection and the light update.
    pub open spec fn spec_mid(self, vs: Seq<Vehicle>, dt_ms: u64) -> Intersection {
        self.spec_emergency_step(spec_emergency_near(vs, self.position), dt_ms).spec_lights_step(dt_ms)
    }

    /// Whether a (non-exited) vehicle may pass: emergency vehicles always may;
    /// others need a green light for their direction.
    pub open spec fn spec_may_pass(self, v: Vehicle) -> bool {
        v.vehicle_type is Emergency || self.lights.spec_get(v.direction).state is Green
    }

    /// One vehicle after the flow-management step, judged against this
    /// intersection state. In the approach band (squared distance 1 to 4) the
    /// vehicle moves if it may pass and waits otherwise; on the intersection
    /// cell it is at the intersection; more than 2 cells past while still
    /// marked at the intersection it has cleared and moves again; any other
    /// vehicle is untouched.
    pub open spec fn spec_flow_vehicle(self, v: Vehicle) -> Vehicle {
        if v.state is Exited {
            v
        } else {
            let d2 = v.position.spec_distance_squared(self.position);
            if 1 <= d2 <= 4 {
                if self.spec_may_pass(v) {
                    Vehicle { state: VehicleState::Moving, time_since_move: 0, ..v }
                } else {
                    Vehicle { state: VehicleState::Waiting, ..v }
                }
            } else if d2 == 0 {
                Vehicle { state: VehicleState::AtIntersection, ..v }
            } else if v.state is AtIntersection {
                Vehicle { state: VehicleState::Moving, time_since_move: 0, ..v }
            } else {
                v
            }
        }
    }

    /// One vehicle after the waiting-release step: a waiting vehicle whose
    /// direction shows green and whose id is in that direction's waiting list
    /// resumes moving; everything else is untouched.
    pub open spec fn spec_release_vehicle(self, v: Vehicle) -> Vehicle {
        if v.state is Waiting && self.lights.spec_get(v.direction).state is Green
            && self.waiting_vehicles.spec_get(v.direction).contains(v.id) {
            Vehicle { state: VehicleState::Moving, time_since_move: 0, ..v }
        } else {
            v
        }
    }

    /// Whether the flow step enqueues this vehicle under `(d, id)`: a held
    /// vehicle (in the approach band and denied passage) joins its
    /// direction's waiting list under its own id.
    pub open spec fn spec_flow_enqueues(self, v: Vehicle, d: Direction, id: u32) -> bool {
        &&& !(v.state is Exited)
        &&& 1 <= v.position.spec_distance_squared(self.position) <= 4
        &&& !self.spec_may_pass(v)
        &&& v.direction == d
        &&& v.id == id
    }

    /// Whether the flow step prunes `(d, id)` from the waiting lists: a
    /// vehicle more than two cells out while still marked at the
    /// intersection has cleared, and its id leaves its direction's list.
    pub open spec fn spec_flow_dequeues(self, v: Vehicle, d: Direction, id: u32) -> bool {
        &&& !(v.state is Exited)
        &&& v.position.spec_distance_squared(self.position) > 4
        &&& v.state is AtIntersection
        &&& v.direction == d
        &&& v.id == id
    }

    /// Whether `id` waits in direction `d`'s list.
    pub open spec fn spec_waits(self, d: Direction, id: u32) -> bool {
        self.waiting_vehicles.spec_get(d).contains(id)
    }

    /// Handle emergency vehicles: activate emergency mode when an emergency
    /// vehicle comes within distance 5, and release it once none is near and
    /// the emergency duration has elapsed.
    fn handle_emergency_vehicles(&mut self, vehicles: &Vec<Vehicle>, dt_ms: u64)
        ensures
            *final(self) == old(self).spec_emergency_step(
                spec_emergency_near(vehicles@, old(self).position),
                dt_ms,
            ),
    {
        let mut emergency_near = false;
        let mut i: usize = 0;
        while i < vehicles.len()
            invariant
                i <= vehicles@.len(),
                emergency_near == (exists|j: int|
                    0 <= j < i && spec_emergency_counts(vehicles@[j], self.position)),
                self == old(self),
            decreases vehicles@.len() - i,
        {
            let v = &vehicles[i];
            if v.is_emergency() && v.position.distance_squared_to(&self.position) < 25
                && !matches!(v.state, VehicleState::Exited) {
                emergency_near = true;
            }
            i += 1;
        }

        if emergency_near && !self.emergency_active {
            self.activate_emergency_mode();
        } else if self.emergency_active {
            self.emergency_elapsed = self.emergency_elapsed.saturating_add(dt_ms);
            if !emergency_near && self.emergency_elapsed >= self.emergency_duration {
                self.deactivate_emergency_mode();
            }
        }
    }

    /// Activate emergency mode: all four lights are forced red.
    pub fn activate_emergency_mode(&mut self)
        ensures
            *final(self) == (Intersection {
                emergency_active: true,
                emergency_elapsed: 0,
                lights: old(self).lights.spec_with_all_overrides(true),
                ..*old(self)
            }),
    {
        self.emergency_active = true;
        self.emergency_elapsed = 0;
        self.lights.set_all_overrides(true);
    }

    /// Deactivate emergency mode: lights resume normal cycling from now.
    pub fn deactivate_emergency_mode(&mut self)
        ensures
            *final(self) == (Intersection {
                emergency_active: false,
                emergency_elapsed: 0,
                lights: old(self).lights.spec_with_all_overrides(false),
                ..*old(self)
            }),
    {
        self.emergency_active = false;
        self.emergency_elapsed = 0;
        self.lights.set_all_overrides(false);
    }

    /// Advance all traffic lights by `dt_ms` and re-synchronize the opposing
    /// pairs; a no-op while emergency mode is active.
    fn update_traffic_lights(&mut self, dt_ms: u64)
        ensures
            *final(self) == old(self).spec_lights_step(dt_ms),
    {
        if self.emergency_active {
            return;
        }

        self.lights.north.update(dt_ms);
        self.lights.south.update(dt_ms);
        self.lights.east.update(dt_ms);
        self.lights.west.update(dt_ms);
        self.synchronize_opposing_lights();
    }

    /// Copy north's state and timer onto south, and east's onto west, so
    /// that opposing directions always agree.
    fn synchronize_opposing_lights(&mut self)
        ensures
            *final(self) == (Intersection {
                lights: DirectionalLights {
                    north: old(self).lights.north,
                    east: old(self).lights.east,
                    south: TrafficLight {
                        state: old(self).lights.north.state,
                        time_in_state: old(self).lights.north.time_in_state,
                        ..old(self).lights.south
                    },
                    west: TrafficLight {
                        state: old(self).lights.east.state,
                        time_in_state: old(self).lights.east.time_in_state,
                        ..old(self).lights.west
                    },
                },
                ..*old(self)
            }),
    {
        self.lights.south.state = self.lights.north.state;
        self.lights.south.time_in_state = self.lights.north.time_in_state;
        self.lights.west.state = self.lights.east.state;
        self.lights.west.time_in_state = self.lights.east.time_in_state;
    }

    /// Manage vehicle flow through the intersection: band each non-exited
    /// vehicle by its distance, admit or hold it, queue held vehicles, count
    /// entering vehicles, and clear vehicles that have passed.
    ///
    /// When the vehicles carry distinct ids the waiting lists afterwards are
    /// pinned down exactly: an id waits if and only if the flow step
    /// enqueued it, or it was already waiting and was not pruned.
    fn manage_vehicle_flow(&mut self, vehicles: &mut Vec<Vehicle>)
        requires
            old(self).waiting_vehicles.no_dups(),
        ensures
            final(self).id == old(self).id,
            final(self).position == old(self).position,
            final(self).lights == old(self).lights,
            final(self).emergency_active == old(self).emergency_active,
            final(self).emergency_elapsed == old(self).emergency_elapsed,
            final(self).emergency_duration == old(self).emergency_duration,
            final(self).efficiency_score == old(self).efficiency_score,
            final(self).traffic_count as int == vstd::math::min(
                old(self).traffic_count + spec_count_entering(old(vehicles)@, old(self).position),
                u64::MAX as int,
            ),
            final(self).waiting_vehicles.no_dups(),
            final(vehicles)@.len() == old(vehicles)@.len(),
            forall|i: int| 0 <= i < old(vehicles)@.len()
                ==> #[trigger] final(vehicles)@[i] == old(self).spec_flow_vehicle(old(vehicles)@[i]),
            crate::vehicles::spec_distinct_ids(old(vehicles)@)
                ==> forall|d: Direction, id: u32| #[trigger] final(self).spec_waits(d, id)
                    == spec_queue_outcome(
                        *old(self),
                        old(self).waiting_vehicles,
                        old(vehicles)@,
                        old(vehicles)@.len() as int,
                        d,
                        id,
                    ),
    {
        let ghost orig_vs = vehicles@;
        let ghost orig = *self;
        let mut i: usize = 0;
        while i < vehicles.len()
            invariant
                i <= vehicles@.len(),
                vehicles@.len() == orig_vs.len(),
                self.id == orig.id,
                self.position == orig.position,
                self.lights == orig.lights,
                self.emergency_active == orig.emergency_active,
                self.emergency_elapsed == orig.emergency_elapsed,
                self.emergency_duration == orig.emergency_duration,
                self.efficiency_score == orig.efficiency_score,
                self.traffic_count as int == vstd::math::min(
                    orig.traffic_count + spec_count_entering(orig_vs.subrange(0, i as int), orig.position),
                    u64::MAX as int,
                ),
                self.waiting_vehicles.no_dups(),
                forall|j: int| 0 <= j < i
                    ==> #[trigger] vehicles@[j] == orig.spec_flow_vehicle(orig_vs[j]),
                forall|j: int| i <= j < orig_vs.len() ==> #[trigger] vehicles@[j] == orig_vs[j],
                crate::vehicles::spec_distinct_ids(orig_vs)
                    ==> forall|d: Direction, id: u32| #[trigger] self.spec_waits(d, id)
                        == spec_queue_outcome(orig, orig.waiting_vehicles, orig_vs, i as int, d, id),
            decreases vehicles@.len() - i,
        {
            proof {
                assert(orig_vs.subrange(0, i + 1).drop_last() =~= orig_vs.subrange(0, i as int));
                assert(orig_vs.subrange(0, i + 1).last() == orig_vs[i as int]);
            }
            let ghost pre = *self;
            let ghost vv = orig_vs[i as int];
            let v_state = vehicles[i].state;
            let v_position = vehicles[i].position;
            let v_direction = vehicles[i].direction;
            let v_id = vehicles[i].id;
            let v_emergency = vehicles[i].is_emergency();

            if matches!(v_state, VehicleState::Exited) {
                proof {
                    if crate::vehicles::spec_distinct_ids(orig_vs) {
                        lemma_flow_queue_step_inert(orig, orig.waiting_vehicles, orig_vs, i as int, pre, *self);
                    }
                }
                i += 1;
                continue;
            }

            let d2 = v_position.distance_squared_to(&self.position);

            if 1 <= d2 && d2 <= 4 {
                let may_pass = v_emergency || self.lights.get(v_direction).state.can_proceed();
                if may_pass {
                    let v = &mut vehicles[i];
                    v.set_state(VehicleState::Moving);
                    proof {
                        assert(orig.spec_may_pass(vv));
                        if crate::vehicles::spec_distinct_ids(orig_vs) {
                            lemma_flow_queue_step_inert(orig, orig.waiting_vehicles, orig_vs, i as int, pre, *self);
                        }
                    }
                } else {
                    let v = &mut vehicles[i];
                    v.set_state(VehicleState::Waiting);
                    self.waiting_vehicles.add(v_direction, v_id);
                    proof {
                        assert(orig.spec_flow_enqueues(vv, v_direction, v_id)) by {
                            assert(!orig.spec_may_pass(vv));
                        }
                        if crate::vehicles::spec_distinct_ids(orig_vs) {
                            assert forall|d: Direction, id: u32| #[trigger] self.spec_waits(d, id)
                                == spec_queue_outcome(orig, orig.waiting_vehicles, orig_vs, i + 1, d, id) by {
                                if d == v_direction && id == v_id {
                                    assert(self.spec_waits(d, id)) by {
                                        let s0 = pre.waiting_vehicles.spec_get(d);
                                        let s1 = self.waiting_vehicles.spec_get(d);
                                        if s0.contains(id) {
                                            assert(s1 == s0);
                                        } else {
                                            assert(s1 == s0.push(id));
                                            assert(s1[s1.len() - 1] == id);
                                        }
                                    }
                                    assert(spec_queue_outcome(orig, orig.waiting_vehicles, orig_vs, i + 1, d, id))
                                        by {
                                        assert(0 <= i < i + 1 && orig.spec_flow_enqueues(orig_vs[i as int], d, id));
                                    }
                                } else {
                                    assert(self.spec_waits(d, id) == pre.spec_waits(d, id)) by {
                                        if d == v_direction {
                                            let s0 = pre.waiting_vehicles.spec_get(d);
                                            let s1 = self.waiting_vehicles.spec_get(d);
                                            if s0.contains(id) {
                                                let k = choose|k: int| 0 <= k < s0.len() && s0[k] == id;
                                                assert(s1[k] == id);
                                            }
                                            if s1.contains(id) {
                                                let k = choose|k: int| 0 <= k < s1.len() && s1[k] == id;
                                                if k < s0.len() {
                                                    assert(s0[k] == id);
                                                } else {
                                                    assert(s1 == s0.push(v_id));
                                                }
                                            }
                                        }
                                    }
                                    lemma_queue_outcome_inert(orig, orig.waiting_vehicles, orig_vs, i as int, d, id);
                                }
                            }
                        }
                    }
                }
            } else if d2 == 0 {
                let v = &mut vehicles[i];
                v.set_state(VehicleState::AtIntersection);
                self.traffic_count = self.traffic_count.saturating_add(1);
                proof {
                    if crate::vehicles::spec_distinct_ids(orig_vs) {
                        lemma_flow_queue_step_inert(orig, orig.waiting_vehicles, orig_vs, i as int, pre, *self);
                    }
                }
            } else if d2 > 4 && matches!(v_state, VehicleState::AtIntersection) {
                let v = &mut vehicles[i];
                v.set_state(VehicleState::Moving);
                self.waiting_vehicles.remove(v_direction, v_id);
                proof {
                    assert(orig.spec_flow_dequeues(vv, v_direction, v_id));
                    if crate::vehicles::spec_distinct_ids(orig_vs) {
                        assert forall|d: Direction, id: u32| #[trigger] self.spec_waits(d, id)
                            == spec_queue_outcome(orig, orig.waiting_vehicles, orig_vs, i + 1, d, id) by {
                            if d == v_direction && id == v_id {
                                assert(!self.spec_waits(d, id));
                                assert(!spec_queue_outcome(orig, orig.waiting_vehicles, orig_vs, i + 1, d, id))
                                    by {
                                    assert(0 <= i < i + 1
                                        && orig.spec_flow_dequeues(orig_vs[i as int], d, id));
                                    if exists|k: int| 0 <= k < i + 1
                                        && orig.spec_flow_enqueues(#[trigger] orig_vs[k], d, id) {
                                        let k = choose|k: int| 0 <= k < i + 1
                                            && orig.spec_flow_enqueues(#[trigger] orig_vs[k], d, id);
                                        // A distinct-id collection has no second
                                        // vehicle with this id, and this one is
                                        // past the band.
                                        assert(orig_vs[k].id == v_id && vv.id == v_id);
                                        assert(k == i);
                                        assert(false);
                                    }
                                }
                            } else {
                                assert(self.spec_waits(d, id) == pre.spec_waits(d, id)) by {
                                    if d == v_direction {
                                        assert(self.waiting_vehicles.spec_get(d).contains(id)
                                            == (pre.waiting_vehicles.spec_get(d).contains(id) && id != v_id));
                                    }
                                }
                                lemma_queue_outcome_inert(orig, orig.waiting_vehicles, orig_vs, i as int, d, id);
                            }
                        }
                    }
                }
            } else {
                proof {
                    if crate::vehicles::spec_distinct_ids(orig_vs) {
                        lemma_flow_queue_step_inert(orig, orig.waiting_vehicles, orig_vs, i as int, pre, *self);
                    }
                }
            }

            i += 1;
        }
        proof {
            assert(orig_vs.subrange(0, orig_vs.len() as int) =~= orig_vs);
        }
    }

    /// Check if a vehicle can proceed through the intersection: emergency
    /// vehicles always can; others need a green light for their direction.
    pub fn can_vehicle_proceed(&self, vehicle: &Vehicle) -> (r: bool)
        ensures
            r == self.spec_may_pass(*vehicle),
    {
        if vehicle.is_emergency() {
            return true;
        }

        self.lights.get(vehicle.direction).state.can_proceed()
    }

    /// Release waiting vehicles whose direction now shows green and whose id
    /// is in that direction's waiting list.
    fn update_waiting_vehicles(&mut self, vehicles: &mut Vec<Vehicle>)
        ensures
            *final(self) == *old(self),
            final(vehicles)@.len() == old(vehicles)@.len(),
            forall|i: int| 0 <= i < old(vehicles)@.len()
                ==> #[trigger] final(vehicles)@[i] == old(self).spec_release_vehicle(old(vehicles)@[i]),
    {
        let ghost orig_vs = vehicles@;
        let mut i: usize = 0;
        while i < vehicles.len()
            invariant
                i <= vehicles@.len(),
                vehicles@.len() == orig_vs.len(),
                self == old(self),
                forall|j: int| 0 <= j < i
                    ==> #[trigger] vehicles@[j] == old(self).spec_release_vehicle(orig_vs[j]),
                forall|j: int| i <= j < orig_vs.len() ==> #[trigger] vehicles@[j] == orig_vs[j],
            decreases vehicles@.len() - i,
        {
            let v_state = vehicles[i].state;
            let v_direction = vehicles[i].direction;
            let v_id = vehicles[i].id;

            if matches!(v_state, VehicleState::Waiting)
                && self.lights.get(v_direction).state.can_proceed()
                && self.waiting_vehicles.contains(v_direction, v_id) {
                let v = &mut vehicles[i];
                v.set_state(VehicleState::Moving);
            }

            i += 1;
        }
    }

    /// Recompute the efficiency score from the waiting count and emergency
    /// state.
    fn calculate_efficiency(&mut self)
        ensures
            *final(self) == (Intersection {
                efficiency_score: spec_efficiency(
                    old(self).waiting_vehicles.spec_total(),
                    old(self).emergency_active,
                ),
                ..*old(self)
            }),
    {
        let total_waiting = self.waiting_vehicles.total();

        let base: u32 = if total_waiting >= 50 {
            0
        } else {
            100 - 2 * (total_waiting as u32)
        };

        self.efficiency_score = if self.emergency_active { base + 10 } else { base };
    }

    /// Update intersection state and traffic lights.
    ///
    /// Runs the fixed per-tick pipeline: emergency detection, light update
    /// with opposing-pair synchronization, flow management, waiting-vehicle
    /// release, and the efficiency recomputation.
    pub fn update(&mut self, vehicles: &mut Vec<Vehicle>, dt_ms: u64)
        requires
            old(self).wf(),
        ensures
            final(self).wf(),
            final(self).id == old(self).id,
            final(self).position == old(self).position,
            final(self).emergency_duration == old(self).emergency_duration,
            // Opposing directions always agree after an update.
            final(self).lights.south.state == final(self).lights.north.state,
            final(self).lights.west.state == final(self).lights.east.state,
            // While emergency mode holds, every light is red.
            final(self).emergency_active ==> final(self).lights.north.state is Red
                && final(self).lights.south.state is Red
                && final(self).lights.east.state is Red
                && final(self).lights.west.state is Red,
            // The lights and the emergency flag follow the two first steps
            // of the pipeline exactly.
            final(self).lights == old(self).spec_mid(old(vehicles)@, dt_ms).lights,
            final(self).emergency_active == old(self).spec_mid(old(vehicles)@, dt_ms).emergency_active,
            final(self).emergency_elapsed == old(self).spec_mid(old(vehicles)@, dt_ms).emergency_elapsed,
            // Every vehicle processed twice: banded by the flow step against
            // the updated lights, then possibly released from waiting.
            final(vehicles)@.len() == old(vehicles)@.len(),
            forall|i: int| 0 <= i < old(vehicles)@.len()
                ==> #[trigger] final(vehicles)@[i] == final(self).spec_release_vehicle(
                    old(self).spec_mid(old(vehicles)@, dt_ms).spec_flow_vehicle(old(vehicles)@[i]),
                ),
            // Processed-traffic tally.
            final(self).traffic_count as int == vstd::math::min(
                old(self).traffic_count + spec_count_entering(old(vehicles)@, old(self).position),
                u64::MAX as int,
            ),
            // The efficiency score follows the waiting count exactly.
            final(self).efficiency_score == spec_efficiency(
                final(self).waiting_vehicles.spec_total(),
                final(self).emergency_active,
            ),
            // For vehicle collections with distinct ids, the waiting lists
            // are pinned down exactly: an id waits afterwards if and only if
            // the flow step enqueued it, or it was already waiting and no
            // cleared vehicle pruned it.
            crate::vehicles::spec_distinct_ids(old(vehicles)@)
                ==> forall|d: Direction, id: u32| #[trigger] final(self).spec_waits(d, id)
                    == spec_queue_outcome(
                        old(self).spec_mid(old(vehicles)@, dt_ms),
                        old(self).waiting_vehicles,
                        old(vehicles)@,
                        old(vehicles)@.len() as int,
                        d,
                        id,
                    ),
    {
        self.handle_emergency_vehicles(vehicles, dt_ms);
        self.update_traffic_lights(dt_ms);
        let ghost mid = *self;
        self.manage_vehicle_flow(vehicles);
        let ghost after_flow = *self;
        self.update_waiting_vehicles(vehicles);
        self.calculate_efficiency();

        proof {
            if crate::vehicles::spec_distinct_ids(old(vehicles)@) {
                assert(mid == old(self).spec_mid(old(vehicles)@, dt_ms));
                assert(mid.waiting_vehicles == old(self).waiting_vehicles);
                assert forall|d: Direction, id: u32| #[trigger] self.spec_waits(d, id)
                    == spec_queue_outcome(
                        mid,
                        old(self).waiting_vehicles,
                        old(vehicles)@,
                        old(vehicles)@.len() as int,
                        d,
                        id,
                    ) by {
                    assert(self.spec_waits(d, id) == after_flow.spec_waits(d, id));
                    assert(after_flow.spec_waits(d, id) == spec_queue_outcome(
                        mid,
                        mid.waiting_vehicles,
                        old(vehicles)@,
                        old(vehicles)@.len() as int,
                        d,
                        id,
                    ));
                }
            }
        }
    }

    /// Get the traffic light state for a direction.
    pub fn get_light_state(&self, direction: Direction) -> (r: Option<LightState>)
        ensures
            r == Some(self.lights.spec_get(direction).state),
    {
        Some(self.lights.get(direction).state)
    }

    /// Get the number of waiting vehicles in a direction.
    pub fn get_waiting_count(&self, direction: Direction) -> (r: usize)
        ensures
            r == self.waiting_vehicles.spec_get(direction).len(),
    {
        self.waiting_vehicles.count(direction)
    }

    /// Get total vehicles processed.
    pub fn get_traffic_count(&self) -> (r: u64)
        ensures
            r == self.traffic_count,
    {
        self.traffic_count
    }

    /// Get the efficiency score (0 to 110).
    pub fn get_efficiency_score(&self) -> (r: u32)
        ensures
            r == self.efficiency_score,
    {
        self.efficiency_score
    }

    /// Check if the intersection is in emergency mode.
    pub fn is_emergency_active(&self) -> (r: bool)
        ensures
            r == self.emergency_active,
    {
        self.emergency_active
    }

    /// Get intersection status for display.
    pub fn get_status_summary(&self) -> (r: IntersectionStatus)
        ensures
            r.id == self.id,
            r.emergency_active == self.emergency_active,
            r.total_waiting as int == self.waiting_vehicles.spec_total(),
            r.traffic_count == self.traffic_count,
            r.efficiency_score == self.efficiency_score,
            r.north_south_light == self.lights.north.state,
            r.east_west_light == self.lights.east.state,
    {
        IntersectionStatus {
            id: self.id,
            emergency_active: self.emergency_active,
            total_waiting: self.waiting_vehicles.total(),
            traffic_count: self.traffic_count,
            efficiency_score: self.efficiency_score,
            north_south_light: self.lights.north.state,
            east_west_light: self.lights.east.state,
        }
    }

    /// Force a light's timer to the green phase length, so that its next
    /// update advances it; for tests and demonstrations.
    pub fn force_light_change(&mut self, direction: Direction)
        ensures
            final(self).lights.spec_get(direction).time_in_state
                == old(self).lights.spec_get(direction).green_duration,
            final(self).lights.spec_get(direction) == (TrafficLight {
                time_in_state: old(self).lights.spec_get(direction).green_duration,
                ..old(self).lights.spec_get(direction)
            }),
            forall|o: Direction| o != direction
                ==> #[trigger] final(self).lights.spec_get(o) == old(self).lights.spec_get(o),
            *final(self) == (Intersection { lights: final(self).lights, ..*old(self) }),
    {
        match direction {
            Direction::North => {
                self.lights.north.time_in_state = self.lights.north.green_duration;
            }
            Direction::South => {
                self.lights.south.time_in_state = self.lights.south.green_duration;
            }
            Direction::East => {
                self.lights.east.time_in_state = self.lights.east.green_duration;
            }
            Direction::West => {
                self.lights.west.time_in_state = self.lights.west.green_duration;
            }
        }
    }
}

/// Whether `(d, id)` waits after the flow step has judged the first `n`
/// vehicles against the intersection state `mid`, starting from the lists
/// `q0`: either some judged vehicle was enqueued under `(d, id)`, or the id
/// was already waiting and no judged vehicle pruned it. For vehicle
/// collections with distinct ids this determines the lists exactly.
pub open spec fn spec_queue_outcome(
    mid: Intersection,
    q0: WaitingQueues,
    vs: Seq<Vehicle>,
    n: int,
    d: Direction,
    id: u32,
) -> bool {
    ||| exists|k: int| 0 <= k < n && mid.spec_flow_enqueues(#[trigger] vs[k], d, id)
    ||| (q0.spec_get(d).contains(id) && !(exists|k: int| 0 <= k < n
        && mid.spec_flow_dequeues(#[trigger] vs[k], d, id)))
}

/// Judging one more vehicle that neither enqueues nor prunes `(d, id)`
/// leaves the outcome for `(d, id)` unchanged.
proof fn lemma_queue_outcome_inert(
    mid: Intersection,
    q0: WaitingQueues,
    vs: Seq<Vehicle>,
    i: int,
    d: Direction,
    id: u32,
)
    requires
        0 <= i < vs.len(),
        !mid.spec_flow_enqueues(vs[i], d, id),
        !mid.spec_flow_dequeues(vs[i], d, id),
    ensures
        spec_queue_outcome(mid, q0, vs, i + 1, d, id) == spec_queue_outcome(mid, q0, vs, i, d, id),
{
    if exists|k: int| 0 <= k < i + 1 && mid.spec_flow_enqueues(#[trigger] vs[k], d, id) {
        let k = choose|k: int| 0 <= k < i + 1 && mid.spec_flow_enqueues(#[trigger] vs[k], d, id);
        assert(k != i);
        assert(0 <= k < i && mid.spec_flow_enqueues(vs[k], d, id));
    }
    if exists|k: int| 0 <= k < i + 1 && mid.spec_flow_dequeues(#[trigger] vs[k], d, id) {
        let k = choose|k: int| 0 <= k < i + 1 && mid.spec_flow_dequeues(#[trigger] vs[k], d, id);
        assert(k != i);
        assert(0 <= k < i && mid.spec_flow_dequeues(vs[k], d, id));
    }
}

/// In a flow-step iteration that left the waiting lists untouched and whose
/// vehicle neither enqueues nor prunes any `(d, id)`, the outcome
/// characterization extends from `i` to `i + 1` judged vehicles.
proof fn lemma_flow_queue_step_inert(
    mid: Intersection,
    q0: WaitingQueues,
    vs: Seq<Vehicle>,
    i: int,
    pre: Intersection,
    cur: Intersection,
)
    requires
        0 <= i < vs.len(),
        forall|d: Direction, id: u32| !mid.spec_flow_enqueues(vs[i], d, id),
        forall|d: Direction, id: u32| !mid.spec_flow_dequeues(vs[i], d, id),
        cur.waiting_vehicles == pre.waiting_vehicles,
        forall|d: Direction, id: u32| #[trigger] pre.spec_waits(d, id)
            == spec_queue_outcome(mid, q0, vs, i, d, id),
    ensures
        forall|d: Direction, id: u32| #[trigger] cur.spec_waits(d, id)
            == spec_queue_outcome(mid, q0, vs, i + 1, d, id),
{
    assert forall|d: Direction, id: u32| #[trigger] cur.spec_waits(d, id)
        == spec_queue_outcome(mid, q0, vs, i + 1, d, id) by {
        assert(cur.spec_waits(d, id) == pre.spec_waits(d, id));
        lemma_queue_outcome_inert(mid, q0, vs, i, d, id);
    }
}

/// Intersection status for UI display.
#[derive(Debug, Clone)]
pub struct IntersectionStatus {
    pub id: u32,
    pub emergency_active: bool,
    pub total_waiting: u128,
    pub traffic_count: u64,
    pub efficiency_score: u32,
    pub north_south_light: LightState,
    pub east_west_light: LightState,
}

} // verus!
