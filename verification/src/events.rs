//! Event system for managing simulation events and special scenarios.
//!
//! Handles emergency vehicles, traffic incidents, rush hour and other
//! dynamic events that affect the traffic simulation. Pending events sit in
//! a queue ordered by priority (highest first) and execution time (earliest
//! first); fired events with a duration stay active until it elapses.

use vstd::prelude::*;
use crate::geometry::{Direction, Position};
use crate::intersection::{DirectionalLights, Intersection};
use crate::rng::{rand_below, rand_range_u64};
use crate::vehicles::Vehicle;
use crate::weather::WeatherType;

verus! {

/// Event priority levels, lowest to highest.
#[derive(Debug, Clone, Copy, PartialEq, Eq, PartialOrd, Ord, Structural)]
pub enum EventPriority {
    Low,
    Normal,
    High,
    Critical,
}

impl EventPriority {
    /// The numeric rank of this priority: 1 for low up to 4 for critical.
    pub open spec fn spec_rank(self) -> u8 {
        match self {
            EventPriority::Low => 1,
            EventPriority::Normal => 2,
            EventPriority::High => 3,
            EventPriority::Critical => 4,
        }
    }

    /// Get the numeric rank (1 low to 4 critical).
    pub fn rank(&self) -> (r: u8)
        ensures
            r == self.spec_rank(),
    {
        match self {
            EventPriority::Low => 1,
            EventPriority::Normal => 2,
            EventPriority::High => 3,
            EventPriority::Critical => 4,
        }
    }
}

/// Simulation events that can occur. Durations are in milliseconds; factors
/// in thousandths.
#[derive(Debug, Clone, Copy, PartialEq, Eq, Structural)]
pub enum SimulationEvent {
    /// Emergency vehicle spawned at position with direction.
    EmergencyVehicleSpawned { position: Position, direction: Direction },
    /// Weather conditions changed.
    WeatherChanged { new_weather: WeatherType },
    /// Traffic incident at an intersection.
    TrafficIncident { intersection_id: u32, duration: u64 },
    /// Rush hour period started.
    RushHourStarted,
    /// Rush hour period ended.
    RushHourEnded,
    /// Traffic light malfunction.
    TrafficLightMalfunction { intersection_id: u32, duration: u64 },
    /// Road construction affecting traffic.
    RoadConstruction { start_position: Position, end_position: Position, duration: u64 },
    /// Special event such as a parade or festival.
    SpecialEvent { center_position: Position, radius: u32, duration: u64, traffic_impact: u32 },
    /// System maintenance mode.
    MaintenanceMode { duration: u64 },
}

/// The active-list duration of an event: timed events carry one, the
/// instantaneous ones none.
pub open spec fn spec_event_duration(event: SimulationEvent) -> Option<u64> {
    match event {
        SimulationEvent::TrafficIncident { duration, .. } => Some(duration),
        SimulationEvent::TrafficLightMalfunction { duration, .. } => Some(duration),
        SimulationEvent::RoadConstruction { duration, .. } => Some(duration),
        SimulationEvent::SpecialEvent { duration, .. } => Some(duration),
        SimulationEvent::MaintenanceMode { duration } => Some(duration),
        _ => None,
    }
}

/// The active-list entry a freshly fired event becomes.
pub open spec fn spec_activated(event: SimulationEvent) -> ActiveEvent {
    ActiveEvent {
        event,
        elapsed: 0,
        duration: spec_event_duration(event),
        persistent: spec_event_duration(event) is None,
    }
}

/// An event currently in effect. `elapsed` accumulates the milliseconds
/// since it fired; a persistent event (one without a duration) is never
/// expired automatically.
#[derive(Debug, Clone, Copy, PartialEq, Eq, Structural)]
pub struct ActiveEvent {
    pub event: SimulationEvent,
    pub elapsed: u64,
    pub duration: Option<u64>,
    pub persistent: bool,
}

impl ActiveEvent {
    /// Whether the entry survives the pruning pass.
    pub open spec fn spec_keep(self) -> bool {
        match self.duration {
            Some(d) => self.elapsed < d,
            None => self.persistent,
        }
    }
}

/// An event waiting for its execution time.
#[derive(Debug, Clone, Copy, PartialEq, Eq, Structural)]
pub struct ScheduledEvent {
    pub event: SimulationEvent,
    pub execute_at: u64,
    pub priority: EventPriority,
}

/// The queue order: higher priority strictly first; equal priorities by
/// earlier execution time.
pub open spec fn spec_sorted_pair(a: ScheduledEvent, b: ScheduledEvent) -> bool {
    a.priority.spec_rank() > b.priority.spec_rank()
        || (a.priority.spec_rank() == b.priority.spec_rank() && a.execute_at <= b.execute_at)
}

/// A queue is sorted when every pair of entries in order satisfies the queue
/// order.
pub open spec fn spec_queue_sorted(q: Seq<ScheduledEvent>) -> bool {
    forall|i: int, j: int| 0 <= i < j < q.len() ==> spec_sorted_pair(q[i], q[j])
}

/// In a sorted queue nothing of lower priority stands before anything of
/// higher priority: dequeuing, which takes a prefix, can never yield a
/// lower-priority event while a higher-priority one is still pending.
pub proof fn lemma_no_priority_inversion(q: Seq<ScheduledEvent>, i: int, j: int)
    requires
        spec_queue_sorted(q),
        0 <= i <= j < q.len(),
    ensures
        q[i].priority.spec_rank() >= q[j].priority.spec_rank(),
{
    if i < j {
        assert(spec_sorted_pair(q[i], q[j]));
    }
}

/// Rush hour configuration. Times are milliseconds into the simulated day.
#[derive(Debug, Clone)]
pub struct RushHourSchedule {
    pub morning_start: u64,
    pub morning_end: u64,
    pub evening_start: u64,
    pub evening_end: u64,
    /// Traffic multiplier while rush hour is active, in thousandths.
    pub traffic_multiplier: u32,
    pub currently_active: bool,
}

impl Default for RushHourSchedule {
    /// Morning rush from 7:00 to 9:00, evening rush from 17:00 to 19:00,
    /// traffic at 2.5 times the base rate, initially inactive.
    fn default() -> (r: Self)
        ensures
            r.morning_start == 7 * 3600000,
            r.morning_end == 9 * 3600000,
            r.evening_start == 17 * 3600000,
            r.evening_end == 19 * 3600000,
            r.traffic_multiplier == 2500,
            !r.currently_active,
    {
        Self {
            morning_start: 7 * 3600000,
            morning_end: 9 * 3600000,
            evening_start: 17 * 3600000,
            evening_end: 19 * 3600000,
            traffic_multiplier: 2500,
            currently_active: false,
        }
    }
}

impl RushHourSchedule {
    /// Whether the given time of day falls in a rush hour window.
    pub open spec fn spec_in_window(self, time_of_day: u64) -> bool {
        (self.morning_start <= time_of_day && time_of_day <= self.morning_end)
            || (self.evening_start <= time_of_day && time_of_day <= self.evening_end)
    }
}

/// Whether the entry is a traffic incident at the intersection.
pub open spec fn spec_is_incident_at(e: ActiveEvent, id: u32) -> bool {
    e.event matches SimulationEvent::TrafficIncident { intersection_id, .. }
        && intersection_id == id
}

/// Whether the entry is a light malfunction at the intersection.
pub open spec fn spec_is_malfunction_at(e: ActiveEvent, id: u32) -> bool {
    e.event matches SimulationEvent::TrafficLightMalfunction { intersection_id, .. }
        && intersection_id == id
}

/// Whether any active event is a traffic incident at the intersection.
pub open spec fn spec_has_active_incident(events: Seq<ActiveEvent>, id: u32) -> bool {
    exists|i: int| 0 <= i < events.len() && #[trigger] spec_is_incident_at(events[i], id)
}

/// Whether any active event is a light malfunction at the intersection.
pub open spec fn spec_has_active_malfunction(events: Seq<ActiveEvent>, id: u32) -> bool {
    exists|i: int| 0 <= i < events.len() && #[trigger] spec_is_malfunction_at(events[i], id)
}

/// What one dequeuing pass does, witnessed by the number `k` of entries
/// taken: the first `k` entries of the queue were due (`execute_at <= now`),
/// the entry after them (if any) was not, the queue keeps the rest, and the
/// taken events are appended in order to the fired list and, wrapped as
/// active entries, to the active list.
pub open spec fn spec_dequeued(
    q0: Seq<ScheduledEvent>,
    now: u64,
    k: int,
    q1: Seq<ScheduledEvent>,
    fired0: Seq<SimulationEvent>,
    fired1: Seq<SimulationEvent>,
    active0: Seq<ActiveEvent>,
    active1: Seq<ActiveEvent>,
) -> bool {
    &&& 0 <= k <= q0.len()
    &&& (forall|i: int| 0 <= i < k ==> #[trigger] q0[i].execute_at <= now)
    &&& (k == q0.len() || q0[k].execute_at > now)
    &&& q1 == q0.skip(k)
    &&& fired1.len() == fired0.len() + k
    &&& (forall|i: int| 0 <= i < fired0.len() ==> #[trigger] fired1[i] == fired0[i])
    &&& (forall|i: int| 0 <= i < k ==> fired1[fired0.len() + i] == #[trigger] q0[i].event)
    &&& active1.len() == active0.len() + k
    &&& (forall|i: int| 0 <= i < active0.len() ==> #[trigger] active1[i] == active0[i])
    &&& (forall|i: int| 0 <= i < k
        ==> active1[active0.len() + i] == spec_activated(#[trigger] q0[i].event))
}

/// What an update guarantees of the scheduled queue, witnessed by the
/// number `k` of dequeued entries: exactly the due prefix was dequeued and
/// fired first, in queue order.
pub open spec fn spec_update_fired(
    q0: Seq<ScheduledEvent>,
    now: u64,
    k: int,
    q1: Seq<ScheduledEvent>,
    fired: Seq<SimulationEvent>,
) -> bool {
    &&& 0 <= k <= q0.len()
    &&& (forall|i: int| 0 <= i < k ==> #[trigger] q0[i].execute_at <= now)
    &&& (k == q0.len() || q0[k].execute_at > now)
    &&& q1 == q0.skip(k)
    &&& fired.len() >= k
    &&& (forall|i: int| 0 <= i < k ==> #[trigger] fired[i] == q0[i].event)
}

/// What an update does to the active list, witnessed by the number `k` of
/// dequeued entries: the due prefix of the queue joins the active list, the
/// whole list ages by the step, and entries past their duration are pruned —
/// persistent entries (no duration) always survive.
pub open spec fn spec_active_after(
    q0: Seq<ScheduledEvent>,
    a0: Seq<ActiveEvent>,
    dt_ms: u64,
    k: int,
    a1: Seq<ActiveEvent>,
) -> bool {
    &&& 0 <= k <= q0.len()
    &&& a1 == (a0 + q0.subrange(0, k).map_values(|s: ScheduledEvent| spec_activated(s.event)))
        .map_values(|a: ActiveEvent| ActiveEvent { elapsed: a.elapsed.saturating_add(dt_ms), ..a })
        .filter(|a: ActiveEvent| a.spec_keep())
}

/// Event manager coordinating simulation events.
///
/// `now` is the manager's simulation clock in milliseconds, advanced by each
/// update; scheduled events fire once it passes their execution time.
#[derive(Debug)]
pub struct EventManager {
    pub active_events: Vec<ActiveEvent>,
    pub event_queue: Vec<ScheduledEvent>,
    pub emergency_enabled: bool,
    pub rush_hour_enabled: bool,
    pub incidents_enabled: bool,
    pub time_since_emergency_spawn: u64,
    pub emergency_cooldown: u64,
    pub rush_hour_schedule: RushHourSchedule,
    /// Chance of a traffic incident per update, in ten-thousandths.
    pub incident_probability: u32,
    pub random_events_enabled: bool,
    pub now: u64,
}

impl EventManager {
    /// The pending queue is kept sorted by priority and time.
    pub open spec fn wf(self) -> bool {
        spec_queue_sorted(self.event_queue@)
    }

    /// Create a new event manager with all event classes enabled and the
    /// emergency cooldown already elapsed.
    pub fn new() -> (r: Self)
        ensures
            r.active_events@ == Seq::<ActiveEvent>::empty(),
            r.event_queue@ == Seq::<ScheduledEvent>::empty(),
            r.emergency_enabled,
            r.rush_hour_enabled,
            r.incidents_enabled,
            r.time_since_emergency_spawn == 60000,
            r.emergency_cooldown == 30000,
            !r.rush_hour_schedule.currently_active,
            r.incident_probability == 10,
            r.random_events_enabled,
            r.now == 0,
            r.wf(),
    {
        let r = Self {
            active_events: Vec::new(),
            event_queue: Vec::new(),
            emergency_enabled: true,
            rush_hour_enabled: true,
            incidents_enabled: true,
            time_since_emergency_spawn: 60000,
            emergency_cooldown: 30000,
            rush_hour_schedule: RushHourSchedule::default(),
            incident_probability: 10,
            random_events_enabled: true,
            now: 0,
        };
        proof {
            assert(r.active_events@ =~= Seq::<ActiveEvent>::empty());
            assert(r.event_queue@ =~= Seq::<ScheduledEvent>::empty());
        }
        r
    }

    /// The index before which the new entry must be inserted to keep the
    /// queue sorted: the first entry the new one precedes.
    fn insertion_index(&self, rank: u8, execute_at: u64) -> (idx: usize)
        ensures
            idx <= self.event_queue@.len(),
            forall|j: int| 0 <= j < idx ==> {
                let e = #[trigger] self.event_queue@[j];
                !(rank > e.priority.spec_rank()
                    || (rank == e.priority.spec_rank() && execute_at < e.execute_at))
            },
            idx < self.event_queue@.len() ==> {
                let e = self.event_queue@[idx as int];
                rank > e.priority.spec_rank()
                    || (rank == e.priority.spec_rank() && execute_at < e.execute_at)
            },
    {
        let mut idx: usize = 0;
        while idx < self.event_queue.len()
            invariant
                idx <= self.event_queue@.len(),
                forall|j: int| 0 <= j < idx ==> {
                    let e = #[trigger] self.event_queue@[j];
                    !(rank > e.priority.spec_rank()
                        || (rank == e.priority.spec_rank() && execute_at < e.execute_at))
                },
            decreases self.event_queue@.len() - idx,
        {
            let e = &self.event_queue[idx];
            let e_rank = e.priority.rank();
            if rank > e_rank || (rank == e_rank && execute_at < e.execute_at) {
                return idx;
            }
            idx += 1;
        }
        idx
    }

    /// Schedule an event to fire `delay_ms` from now, keeping the queue
    /// sorted by priority (highest first) and execution time (earliest
    /// first); among entries it does not precede, the new one goes last.
    pub fn schedule_event(&mut self, event: SimulationEvent, delay_ms: u64, priority: EventPriority)
        requires
            old(self).wf(),
        ensures
            final(self).wf(),
            *final(self) == (EventManager { event_queue: final(self).event_queue, ..*old(self) }),
            final(self).event_queue@.len() == old(self).event_queue@.len() + 1,
            exists|k: int| {
                &&& 0 <= k <= old(self).event_queue@.len()
                &&& final(self).event_queue@ == old(self).event_queue@.insert(k, ScheduledEvent {
                    event,
                    execute_at: old(self).now.saturating_add(delay_ms),
                    priority,
                })
            },
    {
        let scheduled_event = ScheduledEvent {
            event,
            execute_at: self.now.saturating_add(delay_ms),
            priority,
        };

        let idx = self.insertion_index(scheduled_event.priority.rank(), scheduled_event.execute_at);
        let ghost orig = self.event_queue@;
        let ghost new_entry = scheduled_event;
        self.event_queue.insert(idx, scheduled_event);
        proof {
            let q = self.event_queue@;
            assert(q == orig.insert(idx as int, new_entry));
            assert(spec_queue_sorted(q)) by {
                assert forall|i: int, j: int| 0 <= i < j < q.len() implies spec_sorted_pair(q[i], q[j]) by {
                    let i0: int = if i < idx { i } else { i - 1 };
                    let j0: int = if j <= idx { j - 1 } else { j - 1 };
                    if i == idx {
                        // the new entry against a later pre-existing entry
                        let b = q[j];
                        assert(b == orig[j - 1]);
                        if idx < orig.len() {
                            assert(spec_sorted_pair(new_entry, orig[idx as int]));
                            if j - 1 > idx {
                                assert(spec_sorted_pair(orig[idx as int], orig[j - 1]));
                            }
                        }
                        assert(spec_sorted_pair(new_entry, b));
                    } else if j == idx {
                        assert(q[i] == orig[i]);
                        assert(!(new_entry.priority.spec_rank() > orig[i].priority.spec_rank()
                            || (new_entry.priority.spec_rank() == orig[i].priority.spec_rank()
                                && new_entry.execute_at < orig[i].execute_at)));
                        assert(spec_sorted_pair(orig[i], new_entry));
                    } else {
                        let a0: int = if i < idx { i } else { i - 1 };
                        let b0: int = if j < idx { j } else { j - 1 };
                        assert(q[i] == orig[a0] && q[j] == orig[b0] && a0 < b0);
                    }
                }
            }
        }
    }

    /// Dequeue and return every pending event whose execution time has
    /// arrived. Dequeued events always satisfy `execute_at <= now`; they are
    /// taken from the front of the sorted queue, and each becomes an entry of
    /// the active list.
    pub fn process_scheduled_events(&mut self, triggered_events: &mut Vec<SimulationEvent>)
        requires
            old(self).wf(),
        ensures
            final(self).wf(),
            *final(self) == (EventManager {
                event_queue: final(self).event_queue,
                active_events: final(self).active_events,
                ..*old(self)
            }),
            exists|k: int| #[trigger] spec_dequeued(
                old(self).event_queue@,
                old(self).now,
                k,
                final(self).event_queue@,
                old(triggered_events)@,
                final(triggered_events)@,
                old(self).active_events@,
                final(self).active_events@,
            ),
    {
        // Pin the queue length to a machine word for the dequeue counter.
        let queue_len = self.event_queue.len();
        proof {
            assert(self.event_queue@.len() == queue_len);
        }
        let ghost orig_q = self.event_queue@;
        let ghost orig_t = triggered_events@;
        let ghost orig_a = self.active_events@;
        let mut k: usize = 0;

        loop
            invariant
                k <= orig_q.len() <= usize::MAX,
                self.event_queue@ == orig_q.skip(k as int),
                forall|i: int| 0 <= i < k ==> #[trigger] orig_q[i].execute_at <= self.now,
                triggered_events@.len() == orig_t.len() + k,
                forall|i: int| 0 <= i < orig_t.len()
                    ==> #[trigger] triggered_events@[i] == orig_t[i],
                forall|i: int| 0 <= i < k
                    ==> triggered_events@[orig_t.len() + i] == #[trigger] orig_q[i].event,
                self.active_events@.len() == orig_a.len() + k,
                forall|i: int| 0 <= i < orig_a.len()
                    ==> #[trigger] self.active_events@[i] == orig_a[i],
                forall|i: int| 0 <= i < k
                    ==> self.active_events@[orig_a.len() + i]
                        == spec_activated(#[trigger] orig_q[i].event),
                *self == (EventManager {
                    event_queue: self.event_queue,
                    active_events: self.active_events,
                    ..*old(self)
                }),
                spec_queue_sorted(orig_q),
            ensures
                k <= orig_q.len(),
                self.event_queue@ == orig_q.skip(k as int),
                forall|i: int| 0 <= i < k ==> #[trigger] orig_q[i].execute_at <= self.now,
                k == orig_q.len() || orig_q[k as int].execute_at > self.now,
                triggered_events@.len() == orig_t.len() + k,
                forall|i: int| 0 <= i < orig_t.len()
                    ==> #[trigger] triggered_events@[i] == orig_t[i],
                forall|i: int| 0 <= i < k
                    ==> triggered_events@[orig_t.len() + i] == #[trigger] orig_q[i].event,
                self.active_events@.len() == orig_a.len() + k,
                forall|i: int| 0 <= i < orig_a.len()
                    ==> #[trigger] self.active_events@[i] == orig_a[i],
                forall|i: int| 0 <= i < k
                    ==> self.active_events@[orig_a.len() + i]
                        == spec_activated(#[trigger] orig_q[i].event),
                *self == (EventManager {
                    event_queue: self.event_queue,
                    active_events: self.active_events,
                    ..*old(self)
                }),
            decreases orig_q.len() - k,
        {
            if self.event_queue.len() == 0 {
                proof {
                    assert(k == orig_q.len());
                }
                break;
            }
            if self.event_queue[0].execute_at > self.now {
                proof {
                    assert(orig_q[k as int] == self.event_queue@[0]);
                }
                break;
            }

            proof {
                assert(k < orig_q.len());
            }
            let scheduled = self.event_queue.remove(0);
            proof {
                assert(scheduled == orig_q[k as int]);
                assert(self.event_queue@ =~= orig_q.skip(k + 1));
            }
            triggered_events.push(scheduled.event);

            let duration = event_duration(&scheduled.event);
            let persistent = duration.is_none();
            let active_event = ActiveEvent {
                event: scheduled.event,
                elapsed: 0,
                duration,
                persistent,
            };
            self.active_events.push(active_event);
            proof {
                assert(active_event == spec_activated(orig_q[k as int].event));
            }
            k += 1;
        }

        proof {
            // A sorted suffix of a sorted queue stays sorted.
            assert(spec_queue_sorted(self.event_queue@)) by {
                assert forall|i: int, j: int| 0 <= i < j < self.event_queue@.len()
                    implies spec_sorted_pair(self.event_queue@[i], self.event_queue@[j]) by {
                    assert(self.event_queue@[i] == orig_q[k + i]);
                    assert(self.event_queue@[j] == orig_q[k + j]);
                }
            }
            assert(spec_dequeued(
                orig_q,
                self.now,
                k as int,
                self.event_queue@,
                orig_t,
                triggered_events@,
                orig_a,
                self.active_events@,
            ));
        }
    }

    /// Age every active event by `dt_ms` and prune those whose duration has
    /// elapsed; persistent events are never pruned.
    pub fn update_active_events(&mut self, dt_ms: u64)
        ensures
            *final(self) == (EventManager { active_events: final(self).active_events, ..*old(self) }),
            final(self).active_events@ == old(self).active_events@.map_values(
                |a: ActiveEvent| ActiveEvent { elapsed: a.elapsed.saturating_add(dt_ms), ..a },
            ).filter(|a: ActiveEvent| a.spec_keep()),
    {
        let ghost orig = self.active_events@;
        let ghost aged = orig.map_values(
            |a: ActiveEvent| ActiveEvent { elapsed: a.elapsed.saturating_add(dt_ms), ..a },
        );
        let ghost pred = |a: ActiveEvent| a.spec_keep();

        let mut kept: Vec<ActiveEvent> = Vec::new();
        let mut i: usize = 0;
        proof {
            assert(aged.subrange(0, 0) =~= Seq::<ActiveEvent>::empty());
            assert(Seq::<ActiveEvent>::empty().filter(pred) =~= Seq::<ActiveEvent>::empty()) by {
                reveal(Seq::filter);
            }
        }
        while i < self.active_events.len()
            invariant
                i <= orig.len(),
                self.active_events@ == orig,
                aged == orig.map_values(
                    |a: ActiveEvent| ActiveEvent { elapsed: a.elapsed.saturating_add(dt_ms), ..a },
                ),
                pred == |a: ActiveEvent| a.spec_keep(),
                kept@ == aged.subrange(0, i as int).filter(pred),
            decreases orig.len() - i,
        {
            let entry = self.active_events[i];
            let aged_entry = ActiveEvent {
                elapsed: entry.elapsed.saturating_add(dt_ms),
                ..entry
            };
            let keep = match aged_entry.duration {
                Some(d) => aged_entry.elapsed < d,
                None => aged_entry.persistent,
            };
            proof {
                assert(aged_entry == aged[i as int]);
                assert(keep == pred(aged[i as int]));
                assert(aged.subrange(0, i + 1).drop_last() =~= aged.subrange(0, i as int));
                assert(aged.subrange(0, i + 1).last() == aged[i as int]);
                reveal(Seq::filter);
            }
            if keep {
                kept.push(aged_entry);
            }
            i += 1;
        }
        proof {
            assert(aged.subrange(0, orig.len() as int) =~= aged);
        }
        self.active_events = kept;
    }

    /// Roll for a spontaneous emergency-vehicle spawn: at most one fires, at
    /// one of the four fixed entry points, and only after the cooldown since
    /// the previous spawn.
    fn check_emergency_vehicle_triggers(&mut self, triggered_events: &mut Vec<SimulationEvent>)
        ensures
            *final(self) == (EventManager {
                time_since_emergency_spawn: final(self).time_since_emergency_spawn,
                ..*old(self)
            }),
            !old(self).emergency_enabled
                || old(self).time_since_emergency_spawn < old(self).emergency_cooldown
                ==> *final(self) == *old(self) && final(triggered_events)@ == old(triggered_events)@,
            final(triggered_events)@ == old(triggered_events)@
                || (final(triggered_events)@.len() == old(triggered_events)@.len() + 1
                    && final(triggered_events)@.drop_last() == old(triggered_events)@
                    && (final(triggered_events)@.last() matches
                        SimulationEvent::EmergencyVehicleSpawned { .. })
                    && final(self).time_since_emergency_spawn == 0),
    {
        if !self.emergency_enabled {
            return;
        }

        if self.time_since_emergency_spawn < self.emergency_cooldown {
            return;
        }

        // A 0.05% chance per update.
        let roll = rand_below(10000);
        if roll < 5 {
            let pick = rand_below(4);
            let (position, direction) = match pick {
                0 => (Position::new(5, 15), Direction::East),
                1 => (Position::new(80, 15), Direction::West),
                2 => (Position::new(20, 5), Direction::South),
                _ => (Position::new(60, 35), Direction::North),
            };

            triggered_events.push(SimulationEvent::EmergencyVehicleSpawned { position, direction });
            self.time_since_emergency_spawn = 0;
            proof {
                assert(final(triggered_events)@.drop_last() =~= old(triggered_events)@);
            }
        }
    }

    /// Detect entering or leaving a rush hour window on the simulated clock
    /// and emit the start or end event exactly once per transition.
    fn check_rush_hour_triggers(&mut self, triggered_events: &mut Vec<SimulationEvent>)
        ensures
            *final(self) == (EventManager { rush_hour_schedule: final(self).rush_hour_schedule, ..*old(self) }),
            final(self).rush_hour_schedule == (RushHourSchedule {
                currently_active: final(self).rush_hour_schedule.currently_active,
                ..old(self).rush_hour_schedule
            }),
            !old(self).rush_hour_enabled ==> *final(self) == *old(self)
                && final(triggered_events)@ == old(triggered_events)@,
            old(self).rush_hour_enabled ==> {
                let in_window = old(self).rush_hour_schedule.spec_in_window(
                    old(self).now % 86400000,
                );
                &&& final(self).rush_hour_schedule.currently_active == in_window
                &&& (in_window == old(self).rush_hour_schedule.currently_active
                    ==> final(triggered_events)@ == old(triggered_events)@)
                &&& (in_window && !old(self).rush_hour_schedule.currently_active
                    ==> final(triggered_events)@ == old(triggered_events)@.push(
                        SimulationEvent::RushHourStarted,
                    ))
                &&& (!in_window && old(self).rush_hour_schedule.currently_active
                    ==> final(triggered_events)@ == old(triggered_events)@.push(
                        SimulationEvent::RushHourEnded,
                    ))
            },
    {
        if !self.rush_hour_enabled {
            return;
        }

        let time_of_day = self.now % 86400000;

        let should_be_rush_hour = (time_of_day >= self.rush_hour_schedule.morning_start
            && time_of_day <= self.rush_hour_schedule.morning_end)
            || (time_of_day >= self.rush_hour_schedule.evening_start
                && time_of_day <= self.rush_hour_schedule.evening_end);

        if should_be_rush_hour && !self.rush_hour_schedule.currently_active {
            triggered_events.push(SimulationEvent::RushHourStarted);
            self.rush_hour_schedule.currently_active = true;
        } else if !should_be_rush_hour && self.rush_hour_schedule.currently_active {
            triggered_events.push(SimulationEvent::RushHourEnded);
            self.rush_hour_schedule.currently_active = false;
        }
    }

    /// Roll for rare random events: a traffic incident (30 to 119 seconds)
    /// with the configured probability, and a very rare light malfunction
    /// (15 to 59 seconds), each at one of the four central intersections.
    fn check_random_event_triggers(&mut self, triggered_events: &mut Vec<SimulationEvent>)
        ensures
            *final(self) == *old(self),
            !old(self).random_events_enabled || !old(self).incidents_enabled
                ==> final(triggered_events)@ == old(triggered_events)@,
            forall|i: int| 0 <= i < old(triggered_events)@.len()
                ==> #[trigger] final(triggered_events)@[i] == old(triggered_events)@[i],
            old(triggered_events)@.len() <= final(triggered_events)@.len()
                <= old(triggered_events)@.len() + 2,
            forall|i: int| old(triggered_events)@.len() <= i < final(triggered_events)@.len()
                ==> {
                    let e = #[trigger] final(triggered_events)@[i];
                    (e matches SimulationEvent::TrafficIncident { intersection_id, duration }
                        && intersection_id < 4 && 30000 <= duration <= 119000)
                    || (e matches SimulationEvent::TrafficLightMalfunction { intersection_id, duration }
                        && intersection_id < 4 && 15000 <= duration <= 59000)
                },
    {
        if !self.random_events_enabled || !self.incidents_enabled {
            return;
        }

        if self.incident_probability > 0 {
            let roll = rand_below(10000);
            if roll < self.incident_probability {
                let intersection_id = rand_below(4);
                let duration = rand_range_u64(30, 119) * 1000;

                triggered_events.push(SimulationEvent::TrafficIncident { intersection_id, duration });
            }
        }

        // Traffic light malfunctions are very rare: 0.01% per update.
        let roll = rand_below(10000);
        if roll < 1 {
            let intersection_id = rand_below(4);
            let duration = rand_range_u64(15, 59) * 1000;

            triggered_events.push(SimulationEvent::TrafficLightMalfunction { intersection_id, duration });
        }
    }

    /// Apply the standing effects of active events to the intersections: an
    /// active incident caps the intersection's efficiency score at 50, and an
    /// active light malfunction forces all four of its lights red.
    pub fn apply_event_effects(&self, intersections: &mut Vec<Intersection>)
        ensures
            final(intersections)@.len() == old(intersections)@.len(),
            forall|j: int| 0 <= j < old(intersections)@.len() ==> {
                let pre = old(intersections)@[j];
                let post = #[trigger] final(intersections)@[j];
                post == (Intersection {
                    efficiency_score: if spec_has_active_incident(self.active_events@, pre.id) {
                        if pre.efficiency_score > 50 { 50u32 } else { pre.efficiency_score }
                    } else {
                        pre.efficiency_score
                    },
                    lights: if spec_has_active_malfunction(self.active_events@, pre.id) {
                        pre.lights.spec_with_all_overrides(true)
                    } else {
                        pre.lights
                    },
                    ..pre
                })
            },
    {
        let ghost orig = intersections@;
        let mut j: usize = 0;
        while j < intersections.len()
            invariant
                j <= orig.len(),
                intersections@.len() == orig.len(),
                forall|i: int| j <= i < orig.len() ==> #[trigger] intersections@[i] == orig[i],
                forall|i: int| 0 <= i < j ==> #[trigger] intersections@[i] == (Intersection {
                    efficiency_score: if spec_has_active_incident(self.active_events@, orig[i].id) {
                        if orig[i].efficiency_score > 50 { 50u32 } else { orig[i].efficiency_score }
                    } else {
                        orig[i].efficiency_score
                    },
                    lights: if spec_has_active_malfunction(self.active_events@, orig[i].id) {
                        orig[i].lights.spec_with_all_overrides(true)
                    } else {
                        orig[i].lights
                    },
                    ..orig[i]
                }),
            decreases orig.len() - j,
        {
            let id = intersections[j].id;
            if self.has_active_incident(id) {
                let intersection = &mut intersections[j];
                if intersection.efficiency_score > 50 {
                    intersection.efficiency_score = 50;
                }
            }
            if self.has_active_malfunction(id) {
                let intersection = &mut intersections[j];
                intersection.lights.set_all_overrides(true);
            }
            j += 1;
        }
    }

    /// Whether an active traffic incident targets the intersection.
    fn has_active_incident(&self, id: u32) -> (r: bool)
        ensures
            r == spec_has_active_incident(self.active_events@, id),
    {
        let mut i: usize = 0;
        while i < self.active_events.len()
            invariant
                i <= self.active_events@.len(),
                forall|j: int| 0 <= j < i
                    ==> !spec_is_incident_at(#[trigger] self.active_events@[j], id),
            decreases self.active_events@.len() - i,
        {
            match &self.active_events[i].event {
                SimulationEvent::TrafficIncident { intersection_id, .. } => {
                    if *intersection_id == id {
                        proof {
                            assert(spec_is_incident_at(self.active_events@[i as int], id));
                        }
                        return true;
                    }
                }
                _ => {}
            }
            i += 1;
        }
        false
    }

    /// Whether an active light malfunction targets the intersection.
    fn has_active_malfunction(&self, id: u32) -> (r: bool)
        ensures
            r == spec_has_active_malfunction(self.active_events@, id),
    {
        let mut i: usize = 0;
        while i < self.active_events.len()
            invariant
                i <= self.active_events@.len(),
                forall|j: int| 0 <= j < i
                    ==> !spec_is_malfunction_at(#[trigger] self.active_events@[j], id),
            decreases self.active_events@.len() - i,
        {
            match &self.active_events[i].event {
                SimulationEvent::TrafficLightMalfunction { intersection_id, .. } => {
                    if *intersection_id == id {
                        proof {
                            assert(spec_is_malfunction_at(self.active_events@[i as int], id));
                        }
                        return true;
                    }
                }
                _ => {}
            }
            i += 1;
        }
        false
    }

    /// Advance the event system by `dt_ms` and return the events that fired
    /// this tick: due scheduled events first, then any spontaneous triggers.
    /// Afterwards the standing effects of active events are applied to the
    /// intersections.
    pub fn update(&mut self, dt_ms: u64, _vehicles: &Vec<Vehicle>, intersections: &mut Vec<Intersection>)
        -> (triggered: Vec<SimulationEvent>)
        requires
            old(self).wf(),
        ensures
            final(self).wf(),
            final(self).now == old(self).now.saturating_add(dt_ms),
            // Every due scheduled event fired, in queue order, and only due
            // events were dequeued.
            exists|k: int| #[trigger] spec_update_fired(
                old(self).event_queue@,
                final(self).now,
                k,
                final(self).event_queue@,
                triggered@,
            ),
            // Every surviving active event is still within its duration;
            // expired ones were pruned this tick.
            forall|i: int| 0 <= i < final(self).active_events@.len()
                ==> (#[trigger] final(self).active_events@[i]).spec_keep(),
            // The active list is exactly the old one plus the newly fired
            // events, aged by the step and pruned of expired entries;
            // persistent events are never pruned.
            exists|k: int| #[trigger] spec_active_after(
                old(self).event_queue@,
                old(self).active_events@,
                dt_ms,
                k,
                final(self).active_events@,
            ),
            // Standing effects hold on every intersection afterwards.
            final(intersections)@.len() == old(intersections)@.len(),
            forall|j: int| 0 <= j < old(intersections)@.len() ==> {
                let pre = old(intersections)@[j];
                let post = #[trigger] final(intersections)@[j];
                &&& (spec_has_active_incident(final(self).active_events@, pre.id)
                    ==> post.efficiency_score <= 50)
                &&& (!spec_has_active_incident(final(self).active_events@, pre.id)
                    ==> post.efficiency_score == pre.efficiency_score)
                &&& (spec_has_active_malfunction(final(self).active_events@, pre.id)
                    ==> post.lights == pre.lights.spec_with_all_overrides(true))
                &&& (!spec_has_active_malfunction(final(self).active_events@, pre.id)
                    ==> post.lights == pre.lights)
                &&& post.id == pre.id
                &&& post.position == pre.position
                &&& post.traffic_count == pre.traffic_count
                &&& post.waiting_vehicles == pre.waiting_vehicles
                &&& post.emergency_active == pre.emergency_active
                &&& post.emergency_elapsed == pre.emergency_elapsed
                &&& post.emergency_duration == pre.emergency_duration
                &&& post.efficiency_score <= pre.efficiency_score
            },
    {
        self.now = self.now.saturating_add(dt_ms);
        self.time_since_emergency_spawn = self.time_since_emergency_spawn.saturating_add(dt_ms);

        let mut triggered_events: Vec<SimulationEvent> = Vec::new();

        let ghost q0 = self.event_queue@;
        let ghost t0 = triggered_events@;
        let ghost a0 = self.active_events@;
        let ghost now1 = self.now;
        self.process_scheduled_events(&mut triggered_events);
        let ghost q1 = self.event_queue@;
        let ghost t1 = triggered_events@;
        let ghost a1 = self.active_events@;
        let ghost k = choose|k: int| spec_dequeued(q0, now1, k, q1, t0, t1, a0, a1);
        proof {
            assert(spec_dequeued(q0, now1, k, q1, t0, t1, a0, a1));
            assert(a1 =~= a0 + q0.subrange(0, k).map_values(
                |s: ScheduledEvent| spec_activated(s.event),
            )) by {
                let m = q0.subrange(0, k).map_values(|s: ScheduledEvent| spec_activated(s.event));
                assert(a1.len() == a0.len() + k);
                assert forall|x: int| 0 <= x < a1.len() implies a1[x] == (a0 + m)[x] by {
                    if x < a0.len() {
                    } else {
                        let j = x - a0.len();
                        assert(q0[j].event == q0.subrange(0, k)[j].event);
                        assert(a1[a0.len() + j] == spec_activated(q0[j].event));
                    }
                }
            }
        }

        self.update_active_events(dt_ms);
        let ghost a2 = self.active_events@;
        self.check_emergency_vehicle_triggers(&mut triggered_events);
        self.check_rush_hour_triggers(&mut triggered_events);
        self.check_random_event_triggers(&mut triggered_events);
        self.apply_event_effects(intersections);

        proof {
            assert(spec_dequeued(q0, now1, k, q1, t0, t1, a0, a1));
            assert(spec_update_fired(q0, now1, k, self.event_queue@, triggered_events@));
            assert(self.active_events@ == a2);
            assert(spec_active_after(q0, a0, dt_ms, k, self.active_events@));
        }
        triggered_events
    }

    /// Schedule an immediate emergency vehicle at critical priority and
    /// restart the spontaneous-spawn cooldown.
    pub fn trigger_emergency_vehicle(&mut self, position: Position, direction: Direction)
        requires
            old(self).wf(),
        ensures
            final(self).wf(),
            final(self).time_since_emergency_spawn == 0,
            final(self).event_queue@.len() == old(self).event_queue@.len() + 1,
            exists|k: int| {
                &&& 0 <= k <= old(self).event_queue@.len()
                &&& final(self).event_queue@ == old(self).event_queue@.insert(k, ScheduledEvent {
                    event: SimulationEvent::EmergencyVehicleSpawned { position, direction },
                    execute_at: old(self).now,
                    priority: EventPriority::Critical,
                })
            },
    {
        let event = SimulationEvent::EmergencyVehicleSpawned { position, direction };
        self.schedule_event(event, 0, EventPriority::Critical);
        self.time_since_emergency_spawn = 0;
    }

    /// Schedule an immediate weather change at normal priority.
    pub fn trigger_weather_change(&mut self, weather: WeatherType)
        requires
            old(self).wf(),
        ensures
            final(self).wf(),
            final(self).event_queue@.len() == old(self).event_queue@.len() + 1,
            exists|k: int| {
                &&& 0 <= k <= old(self).event_queue@.len()
                &&& final(self).event_queue@ == old(self).event_queue@.insert(k, ScheduledEvent {
                    event: SimulationEvent::WeatherChanged { new_weather: weather },
                    execute_at: old(self).now,
                    priority: EventPriority::Normal,
                })
            },
    {
        let event = SimulationEvent::WeatherChanged { new_weather: weather };
        self.schedule_event(event, 0, EventPriority::Normal);
    }

    /// Schedule an immediate traffic incident at high priority.
    pub fn trigger_traffic_incident(&mut self, intersection_id: u32, duration_ms: u64)
        requires
            old(self).wf(),
        ensures
            final(self).wf(),
            final(self).event_queue@.len() == old(self).event_queue@.len() + 1,
            exists|k: int| {
                &&& 0 <= k <= old(self).event_queue@.len()
                &&& final(self).event_queue@ == old(self).event_queue@.insert(k, ScheduledEvent {
                    event: SimulationEvent::TrafficIncident { intersection_id, duration: duration_ms },
                    execute_at: old(self).now,
                    priority: EventPriority::High,
                })
            },
    {
        let event = SimulationEvent::TrafficIncident { intersection_id, duration: duration_ms };
        self.schedule_event(event, 0, EventPriority::High);
    }

    /// Enable or disable spontaneous emergency vehicles.
    pub fn set_emergency_enabled(&mut self, enabled: bool)
        ensures
            *final(self) == (EventManager { emergency_enabled: enabled, ..*old(self) }),
    {
        self.emergency_enabled = enabled;
    }

    /// Enable or disable rush hour detection.
    pub fn set_rush_hour_enabled(&mut self, enabled: bool)
        ensures
            *final(self) == (EventManager { rush_hour_enabled: enabled, ..*old(self) }),
    {
        self.rush_hour_enabled = enabled;
    }

    /// Enable or disable random incidents.
    pub fn set_incidents_enabled(&mut self, enabled: bool)
        ensures
            *final(self) == (EventManager { incidents_enabled: enabled, ..*old(self) }),
    {
        self.incidents_enabled = enabled;
    }

    /// Set the incident probability per update, in ten-thousandths, clamped
    /// to at most 1 (10000).
    pub fn set_incident_probability(&mut self, probability: u32)
        ensures
            *final(self) == (EventManager {
                incident_probability: if probability > 10000 { 10000u32 } else { probability },
                ..*old(self)
            }),
    {
        self.incident_probability = if probability > 10000 { 10000 } else { probability };
    }

    /// Get the number of active events.
    pub fn get_active_event_count(&self) -> (r: usize)
        ensures
            r == self.active_events@.len(),
    {
        self.active_events.len()
    }

    /// Get the number of scheduled events.
    pub fn get_scheduled_event_count(&self) -> (r: usize)
        ensures
            r == self.event_queue@.len(),
    {
        self.event_queue.len()
    }

    /// Check if rush hour is currently active.
    pub fn is_rush_hour_active(&self) -> (r: bool)
        ensures
            r == self.rush_hour_schedule.currently_active,
    {
        self.rush_hour_schedule.currently_active
    }

    /// Get the rush hour traffic multiplier in thousandths: the schedule's
    /// multiplier while rush hour is active, neutral otherwise.
    pub fn get_rush_hour_multiplier(&self) -> (r: u32)
        ensures
            r == (if self.rush_hour_schedule.currently_active {
                self.rush_hour_schedule.traffic_multiplier
            } else {
                1000u32
            }),
    {
        if self.rush_hour_schedule.currently_active {
            self.rush_hour_schedule.traffic_multiplier
        } else {
            1000
        }
    }

    /// Drop every active and pending event and leave rush hour mode.
    pub fn clear_all_events(&mut self)
        ensures
            final(self).active_events@ == Seq::<ActiveEvent>::empty(),
            final(self).event_queue@ == Seq::<ScheduledEvent>::empty(),
            !final(self).rush_hour_schedule.currently_active,
            final(self).wf(),
            final(self).now == old(self).now,
    {
        self.active_events.clear();
        self.event_queue.clear();
        self.rush_hour_schedule.currently_active = false;
        proof {
            assert(self.active_events@ =~= Seq::<ActiveEvent>::empty());
            assert(self.event_queue@ =~= Seq::<ScheduledEvent>::empty());
        }
    }
}

/// The active-list duration of an event; see `spec_event_duration`.
pub fn event_duration(event: &SimulationEvent) -> (r: Option<u64>)
    ensures
        r == spec_event_duration(*event),
{
    match event {
        SimulationEvent::TrafficIncident { duration, .. } => Some(*duration),
        SimulationEvent::TrafficLightMalfunction { duration, .. } => Some(*duration),
        SimulationEvent::RoadConstruction { duration, .. } => Some(*duration),
        SimulationEvent::SpecialEvent { duration, .. } => Some(*duration),
        SimulationEvent::MaintenanceMode { duration } => Some(*duration),
        _ => None,
    }
}

/// Event statistics for monitoring.
#[derive(Debug, Clone)]
pub struct EventStatistics {
    pub total_emergency_vehicles: u32,
    pub total_incidents: u32,
    pub total_malfunctions: u32,
    pub rush_hour_cycles: u32,
    pub weather_changes: u32,
}

impl EventStatistics {
    pub fn new() -> (r: Self)
        ensures
            r.total_emergency_vehicles == 0,
            r.total_incidents == 0,
            r.total_malfunctions == 0,
            r.rush_hour_cycles == 0,
            r.weather_changes == 0,
    {
        Self {
            total_emergency_vehicles: 0,
            total_incidents: 0,
            total_malfunctions: 0,
            rush_hour_cycles: 0,
            weather_changes: 0,
        }
    }

    /// Count one occurrence of the event in the matching tally.
    pub fn record_event(&mut self, event: &SimulationEvent)
        ensures
            *final(self) == (match *event {
                SimulationEvent::EmergencyVehicleSpawned { .. } => EventStatistics {
                    total_emergency_vehicles: old(self).total_emergency_vehicles.saturating_add(1),
                    ..*old(self)
                },
                SimulationEvent::TrafficIncident { .. } => EventStatistics {
                    total_incidents: old(self).total_incidents.saturating_add(1),
                    ..*old(self)
                },
                SimulationEvent::TrafficLightMalfunction { .. } => EventStatistics {
                    total_malfunctions: old(self).total_malfunctions.saturating_add(1),
                    ..*old(self)
                },
                SimulationEvent::RushHourStarted => EventStatistics {
                    rush_hour_cycles: old(self).rush_hour_cycles.saturating_add(1),
                    ..*old(self)
                },
                SimulationEvent::WeatherChanged { .. } => EventStatistics {
                    weather_changes: old(self).weather_changes.saturating_add(1),
                    ..*old(self)
                },
                _ => *old(self),
            }),
    {
        match event {
            SimulationEvent::EmergencyVehicleSpawned { .. } => {
                self.total_emergency_vehicles = self.total_emergency_vehicles.saturating_add(1);
            }
            SimulationEvent::TrafficIncident { .. } => {
                self.total_incidents = self.total_incidents.saturating_add(1);
            }
            SimulationEvent::TrafficLightMalfunction { .. } => {
                self.total_malfunctions = self.total_malfunctions.saturating_add(1);
            }
            SimulationEvent::RushHourStarted => {
                self.rush_hour_cycles = self.rush_hour_cycles.saturating_add(1);
            }
            SimulationEvent::WeatherChanged { .. } => {
                self.weather_changes = self.weather_changes.saturating_add(1);
            }
            _ => {}
        }
    }
}

} // verus!
