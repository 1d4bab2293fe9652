//! Weather simulation system.
//!
//! Dynamic weather conditions that scale traffic flow, visibility and
//! vehicle behavior. Multipliers and intensities are in thousandths:
//! 1000 stands for the neutral factor 1.0.

use vstd::prelude::*;
use crate::rng::{rand_below, rand_range_u64};

verus! {

/// Weather types available in the simulation.
#[derive(Debug, Clone, Copy, PartialEq, Eq, Hash, Structural)]
pub enum WeatherType {
    Clear,
    LightRain,
    HeavyRain,
    Snow,
    Fog,
    Storm,
}

impl WeatherType {
    /// The base traffic flow factor of this weather type, in thousandths.
    pub open spec fn spec_traffic_multiplier(self) -> u32 {
        match self {
            WeatherType::Clear => 1000,
            WeatherType::LightRain => 900,
            WeatherType::HeavyRain => 700,
            WeatherType::Snow => 600,
            WeatherType::Fog => 800,
            WeatherType::Storm => 500,
        }
    }

    /// Get the traffic flow multiplier for this weather type (thousandths).
    pub fn traffic_multiplier(&self) -> (r: u32)
        ensures
            r == self.spec_traffic_multiplier(),
    {
        match self {
            WeatherType::Clear => 1000,
            WeatherType::LightRain => 900,
            WeatherType::HeavyRain => 700,
            WeatherType::Snow => 600,
            WeatherType::Fog => 800,
            WeatherType::Storm => 500,
        }
    }

    /// The base visibility factor of this weather type, in thousandths.
    pub open spec fn spec_visibility_multiplier(self) -> u32 {
        match self {
            WeatherType::Clear => 1000,
            WeatherType::LightRain => 900,
            WeatherType::HeavyRain => 700,
            WeatherType::Snow => 600,
            WeatherType::Fog => 400,
            WeatherType::Storm => 300,
        }
    }

    /// Get the visibility range multiplier (thousandths).
    pub fn visibility_multiplier(&self) -> (r: u32)
        ensures
            r == self.spec_visibility_multiplier(),
    {
        match self {
            WeatherType::Clear => 1000,
            WeatherType::LightRain => 900,
            WeatherType::HeavyRain => 700,
            WeatherType::Snow => 600,
            WeatherType::Fog => 400,
            WeatherType::Storm => 300,
        }
    }

    /// The base vehicle speed factor of this weather type, in thousandths.
    pub open spec fn spec_speed_multiplier(self) -> u32 {
        match self {
            WeatherType::Clear => 1000,
            WeatherType::LightRain => 950,
            WeatherType::HeavyRain => 800,
            WeatherType::Snow => 700,
            WeatherType::Fog => 850,
            WeatherType::Storm => 600,
        }
    }

    /// Get the vehicle speed multiplier (thousandths).
    pub fn speed_multiplier(&self) -> (r: u32)
        ensures
            r == self.spec_speed_multiplier(),
    {
        match self {
            WeatherType::Clear => 1000,
            WeatherType::LightRain => 950,
            WeatherType::HeavyRain => 800,
            WeatherType::Snow => 700,
            WeatherType::Fog => 850,
            WeatherType::Storm => 600,
        }
    }

    /// The base emergency-spawn factor of this weather type, in thousandths.
    pub open spec fn spec_emergency_spawn_multiplier(self) -> u32 {
        match self {
            WeatherType::Clear => 1000,
            WeatherType::LightRain => 1200,
            WeatherType::HeavyRain => 1500,
            WeatherType::Snow => 1800,
            WeatherType::Fog => 1300,
            WeatherType::Storm => 2000,
        }
    }

    /// Get the emergency vehicle spawn probability multiplier (thousandths).
    pub fn emergency_spawn_multiplier(&self) -> (r: u32)
        ensures
            r == self.spec_emergency_spawn_multiplier(),
    {
        match self {
            WeatherType::Clear => 1000,
            WeatherType::LightRain => 1200,
            WeatherType::HeavyRain => 1500,
            WeatherType::Snow => 1800,
            WeatherType::Fog => 1300,
            WeatherType::Storm => 2000,
        }
    }

    /// Get the display name for the UI.
    pub fn display_name(&self) -> (r: &'static str)
        ensures
            self is Clear ==> r@ == "Clear"@,
            self is LightRain ==> r@ == "Light Rain"@,
            self is HeavyRain ==> r@ == "Heavy Rain"@,
            self is Snow ==> r@ == "Snow"@,
            self is Fog ==> r@ == "Fog"@,
            self is Storm ==> r@ == "Storm"@,
    {
        match self {
            WeatherType::Clear => "Clear",
            WeatherType::LightRain => "Light Rain",
            WeatherType::HeavyRain => "Heavy Rain",
            WeatherType::Snow => "Snow",
            WeatherType::Fog => "Fog",
            WeatherType::Storm => "Storm",
        }
    }

    /// The fixed cycling order of the weather types.
    pub open spec fn spec_all_types() -> Seq<WeatherType> {
        seq![
            WeatherType::Clear,
            WeatherType::LightRain,
            WeatherType::HeavyRain,
            WeatherType::Snow,
            WeatherType::Fog,
            WeatherType::Storm,
        ]
    }

    /// Get all weather types in cycling order.
    pub fn all_types() -> (r: Vec<WeatherType>)
        ensures
            r@ == Self::spec_all_types(),
    {
        let mut v: Vec<WeatherType> = Vec::new();
        v.push(WeatherType::Clear);
        v.push(WeatherType::LightRain);
        v.push(WeatherType::HeavyRain);
        v.push(WeatherType::Snow);
        v.push(WeatherType::Fog);
        v.push(WeatherType::Storm);
        proof {
            assert(v@ =~= Self::spec_all_types());
        }
        v
    }

    /// The weather type that follows this one in cycling order.
    pub open spec fn spec_cycle_next(self) -> WeatherType {
        match self {
            WeatherType::Clear => WeatherType::LightRain,
            WeatherType::LightRain => WeatherType::HeavyRain,
            WeatherType::HeavyRain => WeatherType::Snow,
            WeatherType::Snow => WeatherType::Fog,
            WeatherType::Fog => WeatherType::Storm,
            WeatherType::Storm => WeatherType::Clear,
        }
    }

    /// Get a uniformly random weather type.
    pub fn random() -> (r: WeatherType)
        ensures
            Self::spec_all_types().contains(r),
    {
        let roll = rand_below(6);
        let r = match roll {
            0 => WeatherType::Clear,
            1 => WeatherType::LightRain,
            2 => WeatherType::HeavyRain,
            3 => WeatherType::Snow,
            4 => WeatherType::Fog,
            _ => WeatherType::Storm,
        };
        proof {
            assert(Self::spec_all_types().contains(r)) by {
                if r == WeatherType::Clear {
                    assert(Self::spec_all_types()[0] == r);
                } else if r == WeatherType::LightRain {
                    assert(Self::spec_all_types()[1] == r);
                } else if r == WeatherType::HeavyRain {
                    assert(Self::spec_all_types()[2] == r);
                } else if r == WeatherType::Snow {
                    assert(Self::spec_all_types()[3] == r);
                } else if r == WeatherType::Fog {
                    assert(Self::spec_all_types()[4] == r);
                } else {
                    assert(Self::spec_all_types()[5] == r);
                }
            }
        }
        r
    }

    /// The probability weight of this weather type in a season, in
    /// thousandths.
    pub open spec fn spec_seasonal_probability(self, season: Season) -> u32 {
        match self {
            WeatherType::Clear => 400,
            WeatherType::LightRain => match season {
                Season::Spring => 300,
                Season::Summer => 200,
                Season::Fall => 250,
                Season::Winter => 150,
            },
            WeatherType::HeavyRain => match season {
                Season::Spring => 150,
                Season::Summer => 100,
                Season::Fall => 200,
                Season::Winter => 50,
            },
            WeatherType::Snow => if season is Winter { 300 } else { 20 },
            WeatherType::Fog => match season {
                Season::Fall => 200,
                Season::Winter => 150,
                _ => 80,
            },
            WeatherType::Storm => match season {
                Season::Summer => 100,
                Season::Spring => 80,
                _ => 30,
            },
        }
    }

    /// Get the seasonal probability weight of this weather type
    /// (thousandths).
    pub fn seasonal_probability(&self, season: Season) -> (r: u32)
        ensures
            r == self.spec_seasonal_probability(season),
    {
        match (self, season) {
            (WeatherType::Clear, _) => 400,
            (WeatherType::LightRain, Season::Spring) => 300,
            (WeatherType::LightRain, Season::Summer) => 200,
            (WeatherType::LightRain, Season::Fall) => 250,
            (WeatherType::LightRain, Season::Winter) => 150,
            (WeatherType::HeavyRain, Season::Spring) => 150,
            (WeatherType::HeavyRain, Season::Summer) => 100,
            (WeatherType::HeavyRain, Season::Fall) => 200,
            (WeatherType::HeavyRain, Season::Winter) => 50,
            (WeatherType::Snow, Season::Winter) => 300,
            (WeatherType::Snow, _) => 20,
            (WeatherType::Fog, Season::Fall) => 200,
            (WeatherType::Fog, Season::Winter) => 150,
            (WeatherType::Fog, _) => 80,
            (WeatherType::Storm, Season::Summer) => 100,
            (WeatherType::Storm, Season::Spring) => 80,
            (WeatherType::Storm, _) => 30,
        }
    }
}

/// Seasonal variations.
#[derive(Debug, Clone, Copy, PartialEq, Eq, Structural)]
pub enum Season {
    Spring,
    Summer,
    Fall,
    Winter,
}

/// One weighted edge of the weather transition graph.
#[derive(Debug, Clone, PartialEq, Eq, Structural)]
pub struct WeatherTransition {
    pub from: WeatherType,
    pub to: WeatherType,
    /// Relative weight in thousandths.
    pub probability: u32,
    /// Shortest stay in the target weather, in milliseconds.
    pub min_duration: u64,
}

/// The static weather transition table.
pub open spec fn spec_transition_table() -> Seq<WeatherTransition> {
    seq![
        WeatherTransition { from: WeatherType::Clear, to: WeatherType::LightRain, probability: 300, min_duration: 120000 },
        WeatherTransition { from: WeatherType::Clear, to: WeatherType::Fog, probability: 150, min_duration: 180000 },
        WeatherTransition { from: WeatherType::Clear, to: WeatherType::Snow, probability: 100, min_duration: 240000 },
        WeatherTransition { from: WeatherType::LightRain, to: WeatherType::Clear, probability: 400, min_duration: 90000 },
        WeatherTransition { from: WeatherType::LightRain, to: WeatherType::HeavyRain, probability: 300, min_duration: 120000 },
        WeatherTransition { from: WeatherType::LightRain, to: WeatherType::Storm, probability: 100, min_duration: 60000 },
        WeatherTransition { from: WeatherType::HeavyRain, to: WeatherType::LightRain, probability: 500, min_duration: 90000 },
        WeatherTransition { from: WeatherType::HeavyRain, to: WeatherType::Clear, probability: 200, min_duration: 120000 },
        WeatherTransition { from: WeatherType::HeavyRain, to: WeatherType::Storm, probability: 150, min_duration: 60000 },
        WeatherTransition { from: WeatherType::Snow, to: WeatherType::Clear, probability: 400, min_duration: 180000 },
        WeatherTransition { from: WeatherType::Snow, to: WeatherType::Fog, probability: 200, min_duration: 120000 },
        WeatherTransition { from: WeatherType::Fog, to: WeatherType::Clear, probability: 600, min_duration: 120000 },
        WeatherTransition { from: WeatherType::Fog, to: WeatherType::LightRain, probability: 200, min_duration: 90000 },
        WeatherTransition { from: WeatherType::Storm, to: WeatherType::HeavyRain, probability: 400, min_duration: 60000 },
        WeatherTransition { from: WeatherType::Storm, to: WeatherType::LightRain, probability: 300, min_duration: 90000 },
        WeatherTransition { from: WeatherType::Storm, to: WeatherType::Clear, probability: 200, min_duration: 180000 },
    ]
}

/// Whether the table holds an edge from `from` to `to`.
pub open spec fn spec_has_transition(table: Seq<WeatherTransition>, from: WeatherType, to: WeatherType) -> bool {
    exists|i: int| 0 <= i < table.len() && table[i].from == from && table[i].to == to
}

/// The weather intensity for a weather type that has lasted `elapsed_ms`
/// milliseconds, in thousandths. Each type ramps from its floor toward 1000
/// over its own time constant.
pub open spec fn spec_intensity(w: WeatherType, elapsed_ms: u64) -> u32 {
    match w {
        WeatherType::Clear => 1000,
        WeatherType::LightRain => (600 + spec_ramp(400, 60000, elapsed_ms)) as u32,
        WeatherType::HeavyRain => (800 + spec_ramp(200, 30000, elapsed_ms)) as u32,
        WeatherType::Snow => (500 + spec_ramp(500, 120000, elapsed_ms)) as u32,
        WeatherType::Fog => (300 + spec_ramp(700, 90000, elapsed_ms)) as u32,
        WeatherType::Storm => (900 + spec_ramp(100, 15000, elapsed_ms)) as u32,
    }
}

/// A linear ramp from 0 to `amount` over `tau_ms` milliseconds.
pub open spec fn spec_ramp(amount: u32, tau_ms: u64, elapsed_ms: u64) -> int {
    if elapsed_ms >= tau_ms {
        amount as int
    } else {
        (amount * elapsed_ms) as int / (tau_ms as int)
    }
}

/// Weather system managing dynamic conditions.
///
/// `time_in_weather` accumulates the simulation milliseconds spent in the
/// current weather; `time_since_change` those since the last change of any
/// kind. A transition (a visual and behavioral blend into new weather) runs
/// whenever `transition_active` holds, its progress in thousandths.
#[derive(Debug)]
pub struct WeatherSystem {
    pub current_weather: WeatherType,
    pub previous_weather: WeatherType,
    pub time_in_weather: u64,
    pub weather_duration: u64,
    pub min_weather_duration: u64,
    pub max_weather_duration: u64,
    pub enabled: bool,
    pub auto_change_enabled: bool,
    pub current_season: Season,
    pub intensity: u32,
    pub transition_active: bool,
    pub transition_progress: u32,
    pub transition_duration: u64,
    pub weather_transitions: Vec<WeatherTransition>,
    pub time_since_change: u64,
}

impl WeatherSystem {
    /// Durations are ordered, the transition blend has a positive length,
    /// and the intensity stays within its unit range (1000 is 1.0).
    pub open spec fn wf(self) -> bool {
        &&& self.min_weather_duration <= self.max_weather_duration
        &&& self.transition_duration > 0
        &&& self.intensity <= 1000
    }

    /// Create a new weather system: clear weather, full intensity, automatic
    /// changes enabled, and the static transition table.
    pub fn new() -> (r: Self)
        ensures
            r.current_weather is Clear,
            r.previous_weather is Clear,
            r.time_in_weather == 0,
            r.weather_duration == 300000,
            r.min_weather_duration == 60000,
            r.max_weather_duration == 600000,
            r.enabled,
            r.auto_change_enabled,
            r.current_season is Spring,
            r.intensity == 1000,
            !r.transition_active,
            r.transition_progress == 0,
            r.transition_duration == 10000,
            r.weather_transitions@ == spec_transition_table(),
            r.time_since_change == 0,
            r.wf(),
    {
        let mut system = Self {
            current_weather: WeatherType::Clear,
            previous_weather: WeatherType::Clear,
            time_in_weather: 0,
            weather_duration: 300000,
            min_weather_duration: 60000,
            max_weather_duration: 600000,
            enabled: true,
            auto_change_enabled: true,
            current_season: Season::Spring,
            intensity: 1000,
            transition_active: false,
            transition_progress: 0,
            transition_duration: 10000,
            weather_transitions: Vec::new(),
            time_since_change: 0,
        };
        system.initialize_transitions();
        system
    }

    /// Fill the transition table with the static weather transition graph.
    fn initialize_transitions(&mut self)
        ensures
            *final(self) == (WeatherSystem { weather_transitions: final(self).weather_transitions, ..*old(self) }),
            final(self).weather_transitions@ == spec_transition_table(),
    {
        let mut t: Vec<WeatherTransition> = Vec::new();
        t.push(WeatherTransition { from: WeatherType::Clear, to: WeatherType::LightRain, probability: 300, min_duration: 120000 });
        t.push(WeatherTransition { from: WeatherType::Clear, to: WeatherType::Fog, probability: 150, min_duration: 180000 });
        t.push(WeatherTransition { from: WeatherType::Clear, to: WeatherType::Snow, probability: 100, min_duration: 240000 });
        t.push(WeatherTransition { from: WeatherType::LightRain, to: WeatherType::Clear, probability: 400, min_duration: 90000 });
        t.push(WeatherTransition { from: WeatherType::LightRain, to: WeatherType::HeavyRain, probability: 300, min_duration: 120000 });
        t.push(WeatherTransition { from: WeatherType::LightRain, to: WeatherType::Storm, probability: 100, min_duration: 60000 });
        t.push(WeatherTransition { from: WeatherType::HeavyRain, to: WeatherType::LightRain, probability: 500, min_duration: 90000 });
        t.push(WeatherTransition { from: WeatherType::HeavyRain, to: WeatherType::Clear, probability: 200, min_duration: 120000 });
        t.push(WeatherTransition { from: WeatherType::HeavyRain, to: WeatherType::Storm, probability: 150, min_duration: 60000 });
        t.push(WeatherTransition { from: WeatherType::Snow, to: WeatherType::Clear, probability: 400, min_duration: 180000 });
        t.push(WeatherTransition { from: WeatherType::Snow, to: WeatherType::Fog, probability: 200, min_duration: 120000 });
        t.push(WeatherTransition { from: WeatherType::Fog, to: WeatherType::Clear, probability: 600, min_duration: 120000 });
        t.push(WeatherTransition { from: WeatherType::Fog, to: WeatherType::LightRain, probability: 200, min_duration: 90000 });
        t.push(WeatherTransition { from: WeatherType::Storm, to: WeatherType::HeavyRain, probability: 400, min_duration: 60000 });
        t.push(WeatherTransition { from: WeatherType::Storm, to: WeatherType::LightRain, probability: 300, min_duration: 90000 });
        t.push(WeatherTransition { from: WeatherType::Storm, to: WeatherType::Clear, probability: 200, min_duration: 180000 });
        proof {
            assert(t@ =~= spec_transition_table());
        }
        self.weather_transitions = t;
    }

    /// The transition blend after one step of `dt_ms`: whether a blend still
    /// runs and its progress in thousandths. A blend advances by
    /// `dt_ms / transition_duration` and ends at full progress.
    pub open spec fn spec_blend_step(self, dt_ms: u64) -> (bool, u32) {
        if !self.transition_active {
            (false, self.transition_progress)
        } else {
            let scaled = if dt_ms > u64::MAX as int / 1000 { u64::MAX as int } else { dt_ms * 1000 };
            let p = (self.transition_progress + scaled / (self.transition_duration as int));
            if p >= 1000 {
                (false, 0u32)
            } else {
                (true, p as u32)
            }
        }
    }

    /// The previous-weather record after one blend step: a completing blend
    /// marks the current weather as the new stable one.
    pub open spec fn spec_blend_step_previous(self, dt_ms: u64) -> WeatherType {
        if self.transition_active && !self.spec_blend_step(dt_ms).0 {
            self.current_weather
        } else {
            self.previous_weather
        }
    }

    /// Advance the weather system by `dt_ms` of simulation time: age the
    /// current weather, advance a running transition blend, roll for an
    /// automatic change, and recompute the intensity.
    pub fn update(&mut self, dt_ms: u64)
        requires
            old(self).wf(),
        ensures
            final(self).wf(),
            !old(self).enabled ==> *final(self) == *old(self),
            final(self).enabled == old(self).enabled,
            final(self).auto_change_enabled == old(self).auto_change_enabled,
            final(self).current_season == old(self).current_season,
            final(self).min_weather_duration == old(self).min_weather_duration,
            final(self).max_weather_duration == old(self).max_weather_duration,
            final(self).transition_duration == old(self).transition_duration,
            final(self).weather_transitions == old(self).weather_transitions,
            // The weather stays, or moved along an edge of the transition
            // table after at least the minimum stay, with a fresh duration
            // drawn within bounds.
            final(self).current_weather == old(self).current_weather || {
                &&& old(self).auto_change_enabled
                &&& old(self).time_in_weather.saturating_add(dt_ms) >= old(self).min_weather_duration
                &&& spec_has_transition(
                    old(self).weather_transitions@,
                    old(self).current_weather,
                    final(self).current_weather,
                )
                &&& final(self).previous_weather == old(self).current_weather
                &&& old(self).min_weather_duration <= final(self).weather_duration
                    <= old(self).max_weather_duration
                &&& final(self).time_in_weather == 0
                &&& final(self).transition_active
                &&& final(self).transition_progress == 0
            },
            // While the weather stays, its clocks advance by the step and
            // the transition blend advances or completes.
            old(self).enabled && final(self).current_weather == old(self).current_weather ==> {
                &&& final(self).time_in_weather == old(self).time_in_weather.saturating_add(dt_ms)
                &&& final(self).time_since_change
                    == old(self).time_since_change.saturating_add(dt_ms)
                &&& final(self).weather_duration == old(self).weather_duration
                &&& final(self).transition_active == old(self).spec_blend_step(dt_ms).0
                &&& final(self).transition_progress == old(self).spec_blend_step(dt_ms).1
                &&& final(self).previous_weather == old(self).spec_blend_step_previous(dt_ms)
            },
            // Intensity always tracks the (possibly new) weather and its age.
            old(self).enabled ==> final(self).intensity
                == spec_intensity(final(self).current_weather, final(self).time_in_weather),
    {
        if !self.enabled {
            return;
        }

        self.time_in_weather = self.time_in_weather.saturating_add(dt_ms);
        self.time_since_change = self.time_since_change.saturating_add(dt_ms);

        self.update_transitions(dt_ms);

        if self.auto_change_enabled {
            self.check_weather_change();
        }

        self.update_intensity();
    }

    /// Advance a running transition blend; at full progress the new weather
    /// counts as stable.
    fn update_transitions(&mut self, dt_ms: u64)
        requires
            old(self).wf(),
        ensures
            *final(self) == (WeatherSystem {
                transition_active: final(self).transition_active,
                transition_progress: final(self).transition_progress,
                previous_weather: final(self).previous_weather,
                ..*old(self)
            }),
            final(self).transition_active == old(self).spec_blend_step(dt_ms).0,
            final(self).transition_progress == old(self).spec_blend_step(dt_ms).1,
            final(self).previous_weather == old(self).spec_blend_step_previous(dt_ms),
            !old(self).transition_active ==> *final(self) == *old(self),
    {
        if self.transition_active {
            let scaled: u64 = if dt_ms > u64::MAX / 1000 { u64::MAX } else { dt_ms * 1000 };
            let add = scaled / self.transition_duration;
            let progress = (self.transition_progress as u64).saturating_add(add);

            if progress >= 1000 {
                self.transition_active = false;
                self.transition_progress = 0;
                self.previous_weather = self.current_weather;
            } else {
                self.transition_progress = progress as u32;
            }
        }
    }

    /// Roll for an automatic weather change once the minimum stay has
    /// elapsed: a 0.1% chance per update before the drawn duration expires,
    /// 10% after.
    fn check_weather_change(&mut self)
        requires
            old(self).wf(),
        ensures
            final(self).wf(),
            final(self).enabled == old(self).enabled,
            final(self).auto_change_enabled == old(self).auto_change_enabled,
            final(self).current_season == old(self).current_season,
            final(self).min_weather_duration == old(self).min_weather_duration,
            final(self).max_weather_duration == old(self).max_weather_duration,
            final(self).transition_duration == old(self).transition_duration,
            final(self).weather_transitions == old(self).weather_transitions,
            final(self).intensity == old(self).intensity,
            old(self).time_in_weather < old(self).min_weather_duration ==> *final(self) == *old(self),
            final(self).current_weather == old(self).current_weather ==> {
                &&& final(self).time_in_weather == old(self).time_in_weather
                &&& final(self).time_since_change == old(self).time_since_change
                &&& final(self).weather_duration == old(self).weather_duration
                &&& final(self).previous_weather == old(self).previous_weather
                &&& final(self).transition_active == old(self).transition_active
                &&& final(self).transition_progress == old(self).transition_progress
            },
            final(self).current_weather != old(self).current_weather ==> {
                &&& spec_has_transition(
                    old(self).weather_transitions@,
                    old(self).current_weather,
                    final(self).current_weather,
                )
                &&& final(self).previous_weather == old(self).current_weather
                &&& old(self).min_weather_duration <= final(self).weather_duration
                    <= old(self).max_weather_duration
                &&& final(self).time_in_weather == 0
                &&& final(self).transition_active
                &&& final(self).transition_progress == 0
            },
    {
        if self.time_in_weather < self.min_weather_duration {
            return;
        }

        // Chance per update, in ten-thousandths.
        let change_probability: u32 = if self.time_in_weather > self.weather_duration {
            1000
        } else {
            10
        };

        let roll = rand_below(10000);
        if roll < change_probability {
            self.trigger_weather_change();
        }
    }

    /// Pick a successor weather along the transition table, weighted by the
    /// table's probabilities, and change to it.
    fn trigger_weather_change(&mut self)
        requires
            old(self).wf(),
        ensures
            final(self).wf(),
            final(self).enabled == old(self).enabled,
            final(self).auto_change_enabled == old(self).auto_change_enabled,
            final(self).current_season == old(self).current_season,
            final(self).min_weather_duration == old(self).min_weather_duration,
            final(self).max_weather_duration == old(self).max_weather_duration,
            final(self).transition_duration == old(self).transition_duration,
            final(self).weather_transitions == old(self).weather_transitions,
            final(self).intensity == old(self).intensity,
            final(self).current_weather == old(self).current_weather ==> {
                &&& final(self).time_in_weather == old(self).time_in_weather
                &&& final(self).time_since_change == old(self).time_since_change
                &&& final(self).weather_duration == old(self).weather_duration
                &&& final(self).previous_weather == old(self).previous_weather
                &&& final(self).transition_active == old(self).transition_active
                &&& final(self).transition_progress == old(self).transition_progress
            },
            final(self).current_weather != old(self).current_weather ==> {
                &&& spec_has_transition(
                    old(self).weather_transitions@,
                    old(self).current_weather,
                    final(self).current_weather,
                )
                &&& final(self).previous_weather == old(self).current_weather
                &&& old(self).min_weather_duration <= final(self).weather_duration
                    <= old(self).max_weather_duration
                &&& final(self).time_in_weather == 0
                &&& final(self).transition_active
                &&& final(self).transition_progress == 0
            },
    {
        // Total weight of the transitions leaving the current weather.
        let mut total: u64 = 0;
        let mut i: usize = 0;
        while i < self.weather_transitions.len()
            invariant
                i <= self.weather_transitions@.len(),
                self == old(self),
            decreases self.weather_transitions@.len() - i,
        {
            if self.weather_transitions[i].from == self.current_weather {
                total = total.saturating_add(self.weather_transitions[i].probability as u64);
            }
            i += 1;
        }

        if total == 0 {
            return;
        }

        let mut roll: u64 = rand_range_u64(0, total - 1);
        let mut j: usize = 0;
        while j < self.weather_transitions.len()
            invariant
                j <= self.weather_transitions@.len(),
                self == old(self),
                old(self).wf(),
            decreases self.weather_transitions@.len() - j,
        {
            let matches_current = self.weather_transitions[j].from == self.current_weather;
            if matches_current {
                let p = self.weather_transitions[j].probability as u64;
                if roll < p {
                    let to = self.weather_transitions[j].to;
                    proof {
                        assert(self.weather_transitions@[j as int].from == self.current_weather
                            && self.weather_transitions@[j as int].to == to);
                    }
                    self.change_weather(to);
                    return;
                }
                roll = roll - p;
            }
            j += 1;
        }
    }

    /// Change to the given weather type: record the previous weather, restart
    /// the weather clock, draw a fresh stay within the configured bounds, and
    /// begin a transition blend. Changing to the current weather is a no-op.
    pub fn change_weather(&mut self, new_weather: WeatherType)
        requires
            old(self).wf(),
        ensures
            final(self).wf(),
            new_weather == old(self).current_weather ==> *final(self) == *old(self),
            new_weather != old(self).current_weather ==> {
                &&& final(self).current_weather == new_weather
                &&& final(self).previous_weather == old(self).current_weather
                &&& final(self).time_in_weather == 0
                &&& final(self).time_since_change == 0
                &&& old(self).min_weather_duration <= final(self).weather_duration
                    <= old(self).max_weather_duration
                &&& final(self).transition_active
                &&& final(self).transition_progress == 0
                &&& *final(self) == (WeatherSystem {
                    current_weather: new_weather,
                    previous_weather: old(self).current_weather,
                    time_in_weather: 0,
                    time_since_change: 0,
                    weather_duration: final(self).weather_duration,
                    transition_active: true,
                    transition_progress: 0,
                    ..*old(self)
                })
            },
    {
        if self.weather_eq(new_weather) {
            return;
        }

        self.previous_weather = self.current_weather;
        self.current_weather = new_weather;
        self.time_in_weather = 0;
        self.time_since_change = 0;
        self.weather_duration = rand_range_u64(self.min_weather_duration, self.max_weather_duration);
        self.transition_active = true;
        self.transition_progress = 0;
    }

    /// Whether `w` is the current weather.
    fn weather_eq(&self, w: WeatherType) -> (r: bool)
        ensures
            r == (self.current_weather == w),
    {
        match (self.current_weather, w) {
            (WeatherType::Clear, WeatherType::Clear) => true,
            (WeatherType::LightRain, WeatherType::LightRain) => true,
            (WeatherType::HeavyRain, WeatherType::HeavyRain) => true,
            (WeatherType::Snow, WeatherType::Snow) => true,
            (WeatherType::Fog, WeatherType::Fog) => true,
            (WeatherType::Storm, WeatherType::Storm) => true,
            _ => false,
        }
    }

    /// Recompute the intensity from the current weather and its age.
    fn update_intensity(&mut self)
        ensures
            *final(self) == (WeatherSystem { intensity: final(self).intensity, ..*old(self) }),
            final(self).intensity == spec_intensity(old(self).current_weather, old(self).time_in_weather),
            final(self).intensity <= 1000,
    {
        let elapsed = self.time_in_weather;
        self.intensity = match self.current_weather {
            WeatherType::Clear => 1000,
            WeatherType::LightRain => 600 + ramp(400, 60000, elapsed),
            WeatherType::HeavyRain => 800 + ramp(200, 30000, elapsed),
            WeatherType::Snow => 500 + ramp(500, 120000, elapsed),
            WeatherType::Fog => 300 + ramp(700, 90000, elapsed),
            WeatherType::Storm => 900 + ramp(100, 15000, elapsed),
        };
    }

    /// Set the current weather by external command.
    pub fn set_current_weather(&mut self, weather: WeatherType)
        requires
            old(self).wf(),
        ensures
            final(self).wf(),
            final(self).current_weather == weather,
            weather == old(self).current_weather ==> *final(self) == *old(self),
            weather != old(self).current_weather ==> {
                &&& final(self).previous_weather == old(self).current_weather
                &&& final(self).time_in_weather == 0
                &&& final(self).time_since_change == 0
                &&& old(self).min_weather_duration <= final(self).weather_duration
                    <= old(self).max_weather_duration
                &&& final(self).transition_active
                &&& final(self).transition_progress == 0
            },
    {
        if !self.weather_eq(weather) {
            self.change_weather(weather);
        }
    }

    /// Get the current weather.
    pub fn get_current_weather(&self) -> (r: WeatherType)
        ensures
            r == self.current_weather,
    {
        self.current_weather
    }

    /// The combined traffic factor: the weather's base factor scaled by an
    /// intensity term between one half and one.
    pub open spec fn spec_traffic_factor(w: WeatherType, intensity: u32) -> u32 {
        ((w.spec_traffic_multiplier() * (500 + intensity as int / 2)) / 1000) as u32
    }

    /// Get the traffic flow multiplier under current weather and intensity
    /// (thousandths).
    pub fn get_traffic_multiplier(&self) -> (r: u32)
        ensures
            r == Self::spec_traffic_factor(self.current_weather, self.intensity),
    {
        let base = self.current_weather.traffic_multiplier() as u64;
        let intensity_factor = 500 + (self.intensity as u64) / 2;
        proof {
            assert(base <= 1000 && intensity_factor <= 500 + 0x8000_0000u64);
            vstd::arithmetic::mul::lemma_mul_upper_bound(
                base as int, 1000, intensity_factor as int, 500 + 0x8000_0000int,
            );
        }
        #[verifier::truncate] (((base * intensity_factor) / 1000) as u32)
    }

    /// The combined visibility factor, with a floor of 0.3 at zero intensity.
    pub open spec fn spec_visibility_factor(w: WeatherType, intensity: u32) -> u32 {
        ((w.spec_visibility_multiplier() * (300 + (7 * intensity as int) / 10)) / 1000) as u32
    }

    /// Get the visibility multiplier (thousandths).
    pub fn get_visibility_multiplier(&self) -> (r: u32)
        ensures
            r == Self::spec_visibility_factor(self.current_weather, self.intensity),
    {
        let base = self.current_weather.visibility_multiplier() as u64;
        proof {
            vstd::arithmetic::div_mod::lemma_div_nonincreasing(7 * (self.intensity as int), 10);
        }
        let intensity_factor = 300 + 7 * (self.intensity as u64) / 10;
        proof {
            assert(base <= 1000 && intensity_factor <= 300 + 7 * 0x1_0000_0000u64);
            vstd::arithmetic::mul::lemma_mul_upper_bound(
                base as int, 1000, intensity_factor as int, 300 + 7 * 0x1_0000_0000int,
            );
        }
        #[verifier::truncate] (((base * intensity_factor) / 1000) as u32)
    }

    /// The combined speed factor, with a floor of 0.6 at zero intensity.
    pub open spec fn spec_speed_factor(w: WeatherType, intensity: u32) -> u32 {
        ((w.spec_speed_multiplier() * (600 + (2 * intensity as int) / 5)) / 1000) as u32
    }

    /// Get the vehicle speed multiplier (thousandths).
    pub fn get_speed_multiplier(&self) -> (r: u32)
        ensures
            r == Self::spec_speed_factor(self.current_weather, self.intensity),
    {
        let base = self.current_weather.speed_multiplier() as u64;
        proof {
            vstd::arithmetic::div_mod::lemma_div_nonincreasing(2 * (self.intensity as int), 5);
        }
        let intensity_factor = 600 + 2 * (self.intensity as u64) / 5;
        proof {
            assert(base <= 1000 && intensity_factor <= 600 + 2 * 0x1_0000_0000u64);
            vstd::arithmetic::mul::lemma_mul_upper_bound(
                base as int, 1000, intensity_factor as int, 600 + 2 * 0x1_0000_0000int,
            );
        }
        #[verifier::truncate] (((base * intensity_factor) / 1000) as u32)
    }

    /// The combined emergency-spawn factor: the base scaled by the raw
    /// intensity.
    pub open spec fn spec_emergency_spawn_factor(w: WeatherType, intensity: u32) -> u32 {
        ((w.spec_emergency_spawn_multiplier() * intensity as int) / 1000) as u32
    }

    /// Get the emergency spawn multiplier (thousandths).
    pub fn get_emergency_spawn_multiplier(&self) -> (r: u32)
        ensures
            r == Self::spec_emergency_spawn_factor(self.current_weather, self.intensity),
    {
        let base = self.current_weather.emergency_spawn_multiplier() as u64;
        proof {
            assert(base <= 2000);
            vstd::arithmetic::mul::lemma_mul_upper_bound(
                base as int, 2000, self.intensity as int, 0x1_0000_0000int,
            );
        }
        #[verifier::truncate] (((base * self.intensity as u64) / 1000) as u32)
    }

    /// Enable or disable the weather system; disabling resets to clear
    /// weather at full intensity.
    pub fn set_enabled(&mut self, enabled: bool)
        ensures
            final(self).enabled == enabled,
            enabled ==> *final(self) == (WeatherSystem { enabled: true, ..*old(self) }),
            !enabled ==> *final(self) == (WeatherSystem {
                enabled: false,
                current_weather: WeatherType::Clear,
                intensity: 1000,
                transition_active: false,
                ..*old(self)
            }),
    {
        self.enabled = enabled;
        if !enabled {
            self.current_weather = WeatherType::Clear;
            self.intensity = 1000;
            self.transition_active = false;
        }
    }

    /// Enable or disable automatic weather changes.
    pub fn set_auto_change_enabled(&mut self, enabled: bool)
        ensures
            *final(self) == (WeatherSystem { auto_change_enabled: enabled, ..*old(self) }),
    {
        self.auto_change_enabled = enabled;
    }

    /// Set the current season.
    pub fn set_season(&mut self, season: Season)
        ensures
            *final(self) == (WeatherSystem { current_season: season, ..*old(self) }),
    {
        self.current_season = season;
    }

    /// Get a snapshot of the weather state for display.
    pub fn get_weather_info(&self) -> (r: WeatherInfo)
        ensures
            r.current_weather == self.current_weather,
            r.intensity == self.intensity,
            r.duration_elapsed == self.time_in_weather,
            r.transitioning == self.transition_active,
            r.transition_progress == self.transition_progress,
    {
        WeatherInfo {
            current_weather: self.current_weather,
            intensity: self.intensity,
            duration_elapsed: self.time_in_weather,
            transitioning: self.transition_active,
            transition_progress: self.transition_progress,
        }
    }

    /// Cycle to the next weather type in the fixed order.
    pub fn cycle_weather(&mut self)
        requires
            old(self).wf(),
        ensures
            final(self).wf(),
            final(self).current_weather == old(self).current_weather.spec_cycle_next(),
            final(self).previous_weather == old(self).current_weather,
            final(self).time_in_weather == 0,
            old(self).min_weather_duration <= final(self).weather_duration
                <= old(self).max_weather_duration,
    {
        let next_weather = match self.current_weather {
            WeatherType::Clear => WeatherType::LightRain,
            WeatherType::LightRain => WeatherType::HeavyRain,
            WeatherType::HeavyRain => WeatherType::Snow,
            WeatherType::Snow => WeatherType::Fog,
            WeatherType::Fog => WeatherType::Storm,
            WeatherType::Storm => WeatherType::Clear,
        };
        self.set_current_weather(next_weather);
    }

    /// Milliseconds until the drawn weather duration expires, or `None` when
    /// automatic changes are off.
    pub fn time_until_next_change(&self) -> (r: Option<u64>)
        ensures
            r == (if self.auto_change_enabled {
                Some(self.weather_duration.saturating_sub(self.time_in_weather))
            } else {
                None::<u64>
            }),
    {
        if !self.auto_change_enabled {
            return None;
        }

        Some(self.weather_duration.saturating_sub(self.time_in_weather))
    }

    /// Whether the current weather significantly impedes traffic: the
    /// combined traffic factor falls below 0.8.
    pub fn has_significant_traffic_impact(&self) -> (r: bool)
        ensures
            r == (Self::spec_traffic_factor(self.current_weather, self.intensity) < 800),
    {
        self.get_traffic_multiplier() < 800
    }
}

/// In a storm at any intensity from the storm's floor upward, the combined
/// traffic factor stays strictly below the clear-weather factor of 1.0.
pub proof fn lemma_storm_slows_traffic(intensity: u32)
    requires
        900 <= intensity <= 1000,
    ensures
        WeatherSystem::spec_traffic_factor(WeatherType::Storm, intensity)
            < WeatherSystem::spec_traffic_factor(WeatherType::Clear, 1000),
        WeatherSystem::spec_traffic_factor(WeatherType::Clear, 1000) == 1000,
{
    let f = 500 + intensity as int / 2;
    assert(WeatherSystem::spec_traffic_factor(WeatherType::Storm, intensity) == ((500 * f) / 1000) as u32);
    assert(900 <= f <= 1000);
    assert(500 * f <= 500000 && 500 * f >= 0) by (nonlinear_arith)
        requires 0 <= f <= 1000;
    assert((500 * f) / 1000 <= 500) by {
        vstd::arithmetic::div_mod::lemma_div_is_ordered(500 * f, 500000, 1000);
    }
    assert((500 * f) / 1000 >= 0) by {
        vstd::arithmetic::div_mod::lemma_div_pos_is_pos(500 * f, 1000);
    }
    assert(WeatherSystem::spec_traffic_factor(WeatherType::Clear, 1000)
        == ((1000 * (500 + 1000int / 2)) / 1000) as u32);
    assert(1000int / 2 == 500);
    assert(1000 * (500 + 500int) == 1000000);
    assert(1000000int / 1000 == 1000);
}

/// A linear ramp from 0 toward `amount` over `tau_ms` milliseconds.
fn ramp(amount: u32, tau_ms: u64, elapsed_ms: u64) -> (r: u32)
    requires
        amount <= 1000,
        0 < tau_ms <= 200000,
    ensures
        r == spec_ramp(amount, tau_ms, elapsed_ms),
        r <= amount,
{
    if elapsed_ms >= tau_ms {
        amount
    } else {
        proof {
            assert((amount as int) * (elapsed_ms as int) <= 1000 * 200000) by (nonlinear_arith)
                requires amount <= 1000, elapsed_ms < tau_ms <= 200000;
        }
        let scaled = (amount as u64) * elapsed_ms / tau_ms;
        proof {
            assert((amount as int) * (elapsed_ms as int) / (tau_ms as int) <= amount as int) by {
                assert((amount as int) * (elapsed_ms as int) <= (tau_ms as int) * (amount as int))
                    by (nonlinear_arith)
                    requires elapsed_ms < tau_ms, amount >= 0;
                vstd::arithmetic::div_mod::lemma_multiply_divide_le(
                    (amount as int) * (elapsed_ms as int),
                    tau_ms as int,
                    amount as int,
                );
            }
        }
        scaled as u32
    }
}

/// Weather information snapshot for UI display.
#[derive(Debug, Clone)]
pub struct WeatherInfo {
    pub current_weather: WeatherType,
    pub intensity: u32,
    pub duration_elapsed: u64,
    pub transitioning: bool,
    pub transition_progress: u32,
}

} // verus!
