//! Vehicle simulation and movement logic.

use vstd::prelude::*;
use crate::geometry::{Direction, Position};
use crate::rng::rand_below;

verus! {

/// Right-of-way classes.
#[derive(Debug, Clone, Copy, PartialEq, Eq, Structural)]
pub enum Priority {
    Normal,
    Emergency,
}

/// Types of vehicles in the simulation.
#[derive(Debug, Clone, Copy, PartialEq, Eq, Hash, Structural)]
pub enum VehicleType {
    Car,
    Truck,
    Emergency,
}

impl VehicleType {
    /// The glyph that stands for this vehicle when drawn heading `d`.
    pub open spec fn spec_sprite(self, d: Direction) -> Seq<char> {
        match self {
            VehicleType::Car => match d {
                Direction::North => "^"@,
                Direction::South => "v"@,
                Direction::East => ">"@,
                Direction::West => "<"@,
            },
            VehicleType::Truck => match d {
                Direction::North => "\u{25b2}"@,
                Direction::South => "\u{25bc}"@,
                Direction::East => "\u{25ba}"@,
                Direction::West => "\u{25c4}"@,
            },
            VehicleType::Emergency => "\u{1f691}"@,
        }
    }

    /// Get the ASCII representation of the vehicle.
    pub fn sprite(&self, direction: Direction) -> (r: &'static str)
        ensures
            r@ == self.spec_sprite(direction),
    {
        match (self, direction) {
            (VehicleType::Car, Direction::North) => "^",
            (VehicleType::Car, Direction::South) => "v",
            (VehicleType::Car, Direction::East) => ">",
            (VehicleType::Car, Direction::West) => "<",
            (VehicleType::Truck, Direction::North) => "\u{25b2}",
            (VehicleType::Truck, Direction::South) => "\u{25bc}",
            (VehicleType::Truck, Direction::East) => "\u{25ba}",
            (VehicleType::Truck, Direction::West) => "\u{25c4}",
            (VehicleType::Emergency, _) => "\u{1f691}",
        }
    }

    /// The terminal color escape for this vehicle type.
    pub open spec fn spec_color_code(self) -> Seq<char> {
        match self {
            VehicleType::Car => "\x1b[36m"@,
            VehicleType::Truck => "\x1b[35m"@,
            VehicleType::Emergency => "\x1b[91m"@,
        }
    }

    /// Get the color code for the vehicle.
    pub fn color_code(&self) -> (r: &'static str)
        ensures
            r@ == self.spec_color_code(),
    {
        match self {
            VehicleType::Car => "\x1b[36m",
            VehicleType::Truck => "\x1b[35m",
            VehicleType::Emergency => "\x1b[91m",
        }
    }

    /// Get the priority level.
    pub fn priority(&self) -> (r: Priority)
        ensures
            r == (if self is Emergency { Priority::Emergency } else { Priority::Normal }),
    {
        match self {
            VehicleType::Emergency => Priority::Emergency,
            _ => Priority::Normal,
        }
    }

    /// Milliseconds between two one-cell steps of this vehicle type.
    ///
    /// Cars travel 2.0 cells per second, trucks 1.5 and emergency vehicles
    /// 3.0; the interval is the reciprocal, rounded to whole milliseconds.
    pub open spec fn spec_move_interval_ms(self) -> u64 {
        match self {
            VehicleType::Car => 500,
            VehicleType::Truck => 667,
            VehicleType::Emergency => 333,
        }
    }

    /// Get the movement interval (milliseconds per cell).
    pub fn move_interval_ms(&self) -> (r: u64)
        ensures
            r == self.spec_move_interval_ms(),
            r > 0,
    {
        match self {
            VehicleType::Car => 500,
            VehicleType::Truck => 667,
            VehicleType::Emergency => 333,
        }
    }
}

/// The vehicle type chosen for a uniform roll in `0..100`: rolls 0 to 2 give
/// an emergency vehicle (3%), 3 to 20 a truck (18%), the rest a car (79%).
pub open spec fn spec_vehicle_type_for_roll(roll: u32) -> VehicleType {
    if roll <= 2 {
        VehicleType::Emergency
    } else if roll <= 20 {
        VehicleType::Truck
    } else {
        VehicleType::Car
    }
}

/// Map a uniform roll in `0..100` to a vehicle type using the fixed spawn
/// weights: 3% emergency, 18% truck, 79% car.
pub fn vehicle_type_for_roll(roll: u32) -> (r: VehicleType)
    ensures
        r == spec_vehicle_type_for_roll(roll),
{
    if roll <= 2 {
        VehicleType::Emergency
    } else if roll <= 20 {
        VehicleType::Truck
    } else {
        VehicleType::Car
    }
}

/// Every vehicle of the collection carries a distinct id.
pub open spec fn spec_distinct_ids(vs: Seq<Vehicle>) -> bool {
    forall|i: int, j: int| 0 <= i < j < vs.len() ==> vs[i].id != vs[j].id
}

/// Every vehicle of the collection carries an id below the bound.
pub open spec fn spec_ids_below(vs: Seq<Vehicle>, bound: u32) -> bool {
    forall|i: int| 0 <= i < vs.len() ==> (#[trigger] vs[i]).id < bound
}

/// Filtering keeps ids distinct and within any bound: every kept vehicle is
/// one of the originals.
pub proof fn lemma_filter_keeps_ids(vs: Seq<Vehicle>, p: spec_fn(Vehicle) -> bool, bound: u32)
    requires
        spec_distinct_ids(vs),
        spec_ids_below(vs, bound),
    ensures
        spec_distinct_ids(vs.filter(p)),
        spec_ids_below(vs.filter(p), bound),
        forall|a: int| 0 <= a < vs.filter(p).len() ==> vs.contains(#[trigger] vs.filter(p)[a]),
    decreases vs.len(),
{
    reveal(Seq::filter);
    if vs.len() > 0 {
        let rest = vs.drop_last();
        let last = vs.last();
        assert(spec_distinct_ids(rest));
        assert(spec_ids_below(rest, bound));
        lemma_filter_keeps_ids(rest, p, bound);
        let fr = rest.filter(p);
        let fv = vs.filter(p);
        assert forall|a: int| 0 <= a < fv.len() implies vs.contains(#[trigger] fv[a]) by {
            if p(last) && a == fv.len() - 1 {
                assert(fv[a] == last);
                assert(vs[vs.len() - 1] == last);
            } else {
                assert(fv[a] == fr[a]);
                assert(rest.contains(fr[a]));
                let w = choose|w: int| 0 <= w < rest.len() && rest[w] == fr[a];
                assert(vs[w] == fr[a]);
            }
        }
        assert forall|a: int, b: int| 0 <= a < b < fv.len() implies fv[a].id != fv[b].id by {
            if p(last) && b == fv.len() - 1 {
                assert(fv[a] == fr[a]);
                assert(rest.contains(fr[a]));
                let w = choose|w: int| 0 <= w < rest.len() && rest[w] == fr[a];
                assert(vs[w].id != vs[vs.len() - 1].id);
            } else {
                assert(fv[a] == fr[a] && fv[b] == fr[b]);
            }
        }
        assert forall|a: int| 0 <= a < fv.len() implies (#[trigger] fv[a]).id < bound by {
            assert(vs.contains(fv[a]));
            let w = choose|w: int| 0 <= w < vs.len() && vs[w] == fv[a];
            assert(vs[w].id < bound);
        }
    }
}

/// Vehicle state for behavior management.
#[derive(Debug, Clone, Copy, PartialEq, Eq, Hash, Structural)]
pub enum VehicleState {
    Moving,
    Waiting,
    AtIntersection,
    Exited,
}

/// A vehicle in the traffic simulation.
///
/// `time_since_move` accumulates the simulation milliseconds since the last
/// one-cell step; while the vehicle is moving, one cell is stepped for every
/// full movement interval it contains. `waited_time` accumulates the
/// vehicle's whole lifetime in milliseconds until it exits.
#[derive(Debug, Clone, Copy)]
pub struct Vehicle {
    pub id: u32,
    pub vehicle_type: VehicleType,
    pub position: Position,
    pub direction: Direction,
    pub state: VehicleState,
    pub time_since_move: u64,
    pub target_position: Option<Position>,
    pub waited_time: u64,
}

impl Vehicle {
    /// Create a new vehicle.
    pub fn new(id: u32, vehicle_type: VehicleType, position: Position, direction: Direction) -> (r: Self)
        ensures
            r == (Vehicle {
                id,
                vehicle_type,
                position,
                direction,
                state: VehicleState::Moving,
                time_since_move: 0,
                target_position: None,
                waited_time: 0,
            }),
    {
        Self {
            id,
            vehicle_type,
            position,
            direction,
            state: VehicleState::Moving,
            time_since_move: 0,
            target_position: None,
            waited_time: 0,
        }
    }

    /// Create a vehicle of a randomly rolled type. The type is drawn with the
    /// fixed spawn weights of `vehicle_type_for_roll`; all other fields are as
    /// `new` sets them.
    pub fn random(id: u32, spawn_position: Position, direction: Direction) -> (r: Self)
        ensures
            r == (Vehicle { vehicle_type: r.vehicle_type, ..Vehicle::new_spec(id, spawn_position, direction) }),
            exists|roll: u32| roll < 100 && r.vehicle_type == spec_vehicle_type_for_roll(roll),
    {
        let roll = rand_below(100);
        let vehicle_type = vehicle_type_for_roll(roll);
        proof {
            assert(roll < 100 && vehicle_type == spec_vehicle_type_for_roll(roll));
        }
        Self::new(id, vehicle_type, spawn_position, direction)
    }

    /// The value `new` constructs, for use in contracts.
    pub open spec fn new_spec(id: u32, position: Position, direction: Direction) -> Vehicle {
        Vehicle {
            id,
            vehicle_type: VehicleType::Car,
            position,
            direction,
            state: VehicleState::Moving,
            time_since_move: 0,
            target_position: None,
            waited_time: 0,
        }
    }

    /// How many one-cell steps an update with `dt_ms` performs.
    pub open spec fn spec_steps_in(self, dt_ms: u64) -> nat {
        if self.state is Moving {
            (self.time_since_move.saturating_add(dt_ms) as nat)
                / (self.vehicle_type.spec_move_interval_ms() as nat)
        } else {
            0
        }
    }

    /// The vehicle after one `update(dt_ms)` call.
    pub open spec fn spec_updated(self, dt_ms: u64) -> Vehicle {
        if self.state is Exited {
            self
        } else {
            let total = self.time_since_move.saturating_add(dt_ms);
            let waited = self.waited_time.saturating_add(dt_ms);
            if self.state is Moving {
                let interval = self.vehicle_type.spec_move_interval_ms();
                Vehicle {
                    position: self.position.spec_step_many(
                        self.direction,
                        (total as nat) / (interval as nat),
                    ),
                    time_since_move: ((total as int) % (interval as int)) as u64,
                    waited_time: waited,
                    ..self
                }
            } else {
                Vehicle { time_since_move: total, waited_time: waited, ..self }
            }
        }
    }

    /// Advance the vehicle by `dt_ms` of simulation time.
    ///
    /// An exited vehicle is left untouched: its position and waited time
    /// never change again. Any other vehicle accumulates waited time and
    /// movement time; while moving it steps one cell per full movement
    /// interval accumulated.
    pub fn update(&mut self, dt_ms: u64)
        ensures
            *final(self) == old(self).spec_updated(dt_ms),
            old(self).state is Exited ==> *final(self) == *old(self),
            final(self).id == old(self).id,
            final(self).vehicle_type == old(self).vehicle_type,
            final(self).direction == old(self).direction,
            final(self).state == old(self).state,
            final(self).target_position == old(self).target_position,
            !(old(self).state is Exited) ==> final(self).waited_time
                == old(self).waited_time.saturating_add(dt_ms),
            !(old(self).state is Exited) ==> final(self).position
                == old(self).position.spec_step_many(old(self).direction, old(self).spec_steps_in(dt_ms)),
            !(old(self).state is Exited) && !(old(self).state is Moving)
                ==> final(self).position == old(self).position
                    && final(self).time_since_move == old(self).time_since_move.saturating_add(dt_ms),
    {
        if matches!(self.state, VehicleState::Exited) {
            return;
        }

        self.waited_time = self.waited_time.saturating_add(dt_ms);
        self.time_since_move = self.time_since_move.saturating_add(dt_ms);

        if matches!(self.state, VehicleState::Moving) {
            let interval = self.vehicle_type.move_interval_ms();
            let ghost start = *self;
            let ghost total = self.time_since_move as nat;
            let ghost done: nat = 0;
            while self.time_since_move >= interval
                invariant
                    interval == self.vehicle_type.spec_move_interval_ms(),
                    interval > 0,
                    self.vehicle_type == start.vehicle_type,
                    self.direction == start.direction,
                    self.id == start.id,
                    self.state == start.state,
                    self.target_position == start.target_position,
                    self.waited_time == start.waited_time,
                    self.time_since_move + done * interval == total,
                    self.position == start.position.spec_step_many(start.direction, done),
                    total / (interval as nat) == done + (self.time_since_move as nat) / (interval as nat),
                decreases self.time_since_move,
            {
                proof {
                    lemma_step_many_snoc(start.position, start.direction, done);
                    assert((self.time_since_move as nat) / (interval as nat)
                        == 1 + ((self.time_since_move - interval) as nat) / (interval as nat)) by {
                        vstd::arithmetic::div_mod::lemma_div_plus_one(
                            (self.time_since_move - interval) as int,
                            interval as int,
                        );
                    }
                }
                self.position = self.position.step(self.direction);
                self.time_since_move = self.time_since_move - interval;
                proof {
                    done = done + 1;
                }
            }
            proof {
                vstd::arithmetic::div_mod::lemma_basic_div(self.time_since_move as int, interval as int);
                assert(self.time_since_move as int == (total as int) % (interval as int)) by {
                    vstd::arithmetic::div_mod::lemma_fundamental_div_mod(total as int, interval as int);
                    vstd::arithmetic::mul::lemma_mul_is_commutative(interval as int, done as int);
                    assert(done == (total as nat) / (interval as nat));
                }
            }
        }
    }

    /// Check if the vehicle can move to the next position: true when no other
    /// vehicle already stands there.
    pub fn can_move(&self, next_position: Position, other_vehicles: &Vec<Vehicle>) -> (r: bool)
        ensures
            r == !(exists|i: int|
                0 <= i < other_vehicles@.len()
                    && other_vehicles@[i].id != self.id
                    && other_vehicles@[i].position == next_position),
    {
        let mut idx: usize = 0;
        while idx < other_vehicles.len()
            invariant
                idx <= other_vehicles@.len(),
                forall|i: int| 0 <= i < idx ==> !(other_vehicles@[i].id != self.id
                    && other_vehicles@[i].position == next_position),
            decreases other_vehicles@.len() - idx,
        {
            let other = &other_vehicles[idx];
            if other.id != self.id && other.position == next_position {
                return false;
            }
            idx += 1;
        }
        true
    }

    /// Set vehicle state. Entering the moving state restarts the movement
    /// interval from this moment.
    pub fn set_state(&mut self, state: VehicleState)
        ensures
            final(self).state == state,
            state is Moving ==> final(self).time_since_move == 0,
            !(state is Moving) ==> final(self).time_since_move == old(self).time_since_move,
            *final(self) == (Vehicle {
                state,
                time_since_move: final(self).time_since_move,
                ..*old(self)
            }),
    {
        self.state = state;
        if matches!(state, VehicleState::Moving) {
            self.time_since_move = 0;
        }
    }

    /// Colored sprite for display: the type's color escape, its glyph, and
    /// the color reset.
    pub fn display_sprite(&self) -> (r: String)
        ensures
            r@ == self.vehicle_type.spec_color_code()
                + self.vehicle_type.spec_sprite(self.direction) + "\x1b[0m"@,
    {
        let mut s = String::new();
        s.append(self.vehicle_type.color_code());
        s.append(self.vehicle_type.sprite(self.direction));
        s.append("\x1b[0m");
        s
    }

    /// Check if vehicle is emergency type.
    pub fn is_emergency(&self) -> (r: bool)
        ensures
            r == (self.vehicle_type is Emergency),
    {
        matches!(self.vehicle_type, VehicleType::Emergency)
    }

    /// The next position this vehicle wants to move to.
    pub fn next_position(&self) -> (r: Position)
        ensures
            r == self.position.spec_step(self.direction),
    {
        self.position.step(self.direction)
    }

    /// A vehicle is stuck exactly when it is waiting and has accumulated more
    /// than 30 seconds of waited time.
    pub fn is_stuck(&self) -> (r: bool)
        ensures
            r == (self.waited_time > 30000 && self.state is Waiting),
    {
        self.waited_time > 30000 && matches!(self.state, VehicleState::Waiting)
    }
}

/// An exited vehicle is frozen: however many further updates it receives,
/// its position and waited time never change again.
pub proof fn lemma_exited_vehicle_frozen(v: Vehicle, dt1_ms: u64, dt2_ms: u64)
    requires
        v.state is Exited,
    ensures
        v.spec_updated(dt1_ms) == v,
        v.spec_updated(dt1_ms).spec_updated(dt2_ms) == v,
{
}

/// Stepping `n` times and then once more is the same as stepping `n + 1`
/// times.
pub proof fn lemma_step_many_snoc(p: Position, d: Direction, n: nat)
    ensures
        p.spec_step_many(d, n).spec_step(d) == p.spec_step_many(d, n + 1),
    decreases n,
{
    if n == 0 {
        assert(p.spec_step_many(d, 1) == p.spec_step(d).spec_step_many(d, 0));
    } else {
        lemma_step_many_snoc(p.spec_step(d), d, (n - 1) as nat);
        assert(p.spec_step_many(d, n) == p.spec_step(d).spec_step_many(d, (n - 1) as nat));
        assert(p.spec_step_many(d, n + 1) == p.spec_step(d).spec_step_many(d, n));
    }
}

/// Vehicle spawner for generating traffic.
///
/// Rate limited: `spawn_rate` holds thousandths of a vehicle per second, and
/// a spawn succeeds only once the accumulated time reaches the reciprocal
/// interval.
#[derive(Debug)]
pub struct VehicleSpawner {
    spawn_rate: u32,
    time_since_last_spawn: u64,
    vehicle_id_counter: u32,
}

impl VehicleSpawner {
    /// The spawn interval in milliseconds for a rate in thousandths of a
    /// vehicle per second; meaningful only for a nonzero rate.
    pub open spec fn spec_interval_ms(rate: u32) -> u64 {
        1_000_000u64 / (rate as u64)
    }

    /// Whether a spawner in this state answers a `try_spawn` call.
    pub open spec fn spec_ready(self) -> bool {
        self.spec_rate() > 0 && self.spec_elapsed() >= Self::spec_interval_ms(self.spec_rate())
    }

    pub closed spec fn spec_rate(self) -> u32 {
        self.spawn_rate
    }

    pub closed spec fn spec_elapsed(self) -> u64 {
        self.time_since_last_spawn
    }

    pub closed spec fn spec_counter(self) -> u32 {
        self.vehicle_id_counter
    }

    /// Create a new vehicle spawner. `spawn_rate` is in thousandths of a
    /// vehicle per second (1000 spawns one vehicle per second).
    pub fn new(spawn_rate: u32) -> (r: Self)
        ensures
            r.spec_rate() == spawn_rate,
            r.spec_elapsed() == 0,
            r.spec_counter() == 0,
    {
        Self {
            spawn_rate,
            time_since_last_spawn: 0,
            vehicle_id_counter: 0,
        }
    }

    /// Accumulate `dt_ms` of simulation time toward the next spawn.
    pub fn update(&mut self, dt_ms: u64)
        ensures
            final(self).spec_elapsed() == old(self).spec_elapsed().saturating_add(dt_ms),
            final(self).spec_rate() == old(self).spec_rate(),
            final(self).spec_counter() == old(self).spec_counter(),
    {
        self.time_since_last_spawn = self.time_since_last_spawn.saturating_add(dt_ms);
    }

    /// Try to spawn a vehicle of the given, already chosen type.
    ///
    /// Returns a vehicle exactly when the rate is nonzero and a full spawn
    /// interval has accumulated; the spawned vehicle takes the next id.
    pub fn try_spawn_typed(&mut self, position: Position, direction: Direction, vehicle_type: VehicleType)
        -> (r: Option<Vehicle>)
        ensures
            r is Some <==> old(self).spec_ready(),
            !old(self).spec_ready() ==> *final(self) == *old(self),
            old(self).spec_ready() ==> {
                &&& final(self).spec_elapsed() == 0
                &&& final(self).spec_rate() == old(self).spec_rate()
                &&& final(self).spec_counter() == old(self).spec_counter().saturating_add(1)
                &&& r == Some(Vehicle {
                    vehicle_type,
                    ..Vehicle::new_spec(final(self).spec_counter(), position, direction)
                })
            },
    {
        if self.spawn_rate == 0 {
            return None;
        }

        let spawn_interval: u64 = 1_000_000 / (self.spawn_rate as u64);

        if self.time_since_last_spawn >= spawn_interval {
            self.time_since_last_spawn = 0;
            self.vehicle_id_counter = self.vehicle_id_counter.saturating_add(1);
            Some(Vehicle::new(self.vehicle_id_counter, vehicle_type, position, direction))
        } else {
            None
        }
    }

    /// Try to spawn a vehicle, rolling its type with the fixed spawn weights
    /// of `vehicle_type_for_roll` (3% emergency, 18% truck, 79% car).
    pub fn try_spawn(&mut self, position: Position, direction: Direction) -> (r: Option<Vehicle>)
        ensures
            r is Some <==> old(self).spec_ready(),
            !old(self).spec_ready() ==> *final(self) == *old(self),
            old(self).spec_ready() ==> {
                &&& final(self).spec_elapsed() == 0
                &&& final(self).spec_rate() == old(self).spec_rate()
                &&& final(self).spec_counter() == old(self).spec_counter().saturating_add(1)
                &&& r matches Some(v) && v == (Vehicle {
                    vehicle_type: v.vehicle_type,
                    ..Vehicle::new_spec(final(self).spec_counter(), position, direction)
                }) && (exists|roll: u32| roll < 100 && v.vehicle_type == spec_vehicle_type_for_roll(roll))
            },
    {
        let roll = rand_below(100);
        let vehicle_type = vehicle_type_for_roll(roll);
        proof {
            assert(roll < 100 && vehicle_type == spec_vehicle_type_for_roll(roll));
        }
        self.try_spawn_typed(position, direction, vehicle_type)
    }

    /// Get current spawn rate (thousandths of a vehicle per second).
    pub fn spawn_rate(&self) -> (r: u32)
        ensures
            r == self.spec_rate(),
    {
        self.spawn_rate
    }

    /// Set spawn rate (thousandths of a vehicle per second).
    pub fn set_spawn_rate(&mut self, rate: u32)
        ensures
            final(self).spec_rate() == rate,
            final(self).spec_elapsed() == old(self).spec_elapsed(),
            final(self).spec_counter() == old(self).spec_counter(),
    {
        self.spawn_rate = rate;
    }

    /// Reset the spawner's timer and id counter.
    pub fn reset(&mut self)
        ensures
            final(self).spec_rate() == old(self).spec_rate(),
            final(self).spec_elapsed() == 0,
            final(self).spec_counter() == 0,
    {
        self.time_since_last_spawn = 0;
        self.vehicle_id_counter = 0;
    }
}

/// Traffic density levels.
#[derive(Debug, Clone, Copy, PartialEq, Eq, Structural)]
pub enum TrafficDensity {
    Light,
    Moderate,
    Heavy,
    RushHour,
}

impl TrafficDensity {
    /// Convert to a spawn rate multiplier in thousandths (1000 is neutral).
    pub fn to_spawn_multiplier(&self) -> (r: u32)
        ensures
            r == (match *self {
                TrafficDensity::Light => 500u32,
                TrafficDensity::Moderate => 1000u32,
                TrafficDensity::Heavy => 1500u32,
                TrafficDensity::RushHour => 2500u32,
            }),
    {
        match self {
            TrafficDensity::Light => 500,
            TrafficDensity::Moderate => 1000,
            TrafficDensity::Heavy => 1500,
            TrafficDensity::RushHour => 2500,
        }
    }
}

} // verus!
