//! ASCII art tables for the traffic simulation: city layouts, vehicle
//! glyphs, intersection graphics and weather effects. Painting them onto a
//! screen happens outside this crate.

use vstd::prelude::*;
use crate::geometry::Direction;
use crate::vehicles::VehicleType;

verus! {

/// Weather effect classes that have distinct sprite sets.
#[derive(Debug, Clone, Copy, PartialEq, Eq, Hash, Structural)]
pub enum WeatherType {
    Clear,
    Rain,
    Snow,
    Fog,
}

impl WeatherType {
    /// The row of this weather class in the effect table.
    pub open spec fn spec_index(self) -> int {
        match self {
            WeatherType::Clear => 0,
            WeatherType::Rain => 1,
            WeatherType::Snow => 2,
            WeatherType::Fog => 3,
        }
    }

    fn index(&self) -> (r: usize)
        ensures
            r == self.spec_index(),
    {
        match self {
            WeatherType::Clear => 0,
            WeatherType::Rain => 1,
            WeatherType::Snow => 2,
            WeatherType::Fog => 3,
        }
    }
}

/// UI element classes with a fixed template each.
#[derive(Debug, Clone, Copy, PartialEq, Eq, Hash, Structural)]
pub enum UiElement {
    StatusPanel,
    TrafficLight,
    EmergencyAlert,
    StatisticsBoard,
    ControlsHelp,
}

impl UiElement {
    /// The row of this element in the template table.
    pub open spec fn spec_index(self) -> int {
        match self {
            UiElement::StatusPanel => 0,
            UiElement::TrafficLight => 1,
            UiElement::EmergencyAlert => 2,
            UiElement::StatisticsBoard => 3,
            UiElement::ControlsHelp => 4,
        }
    }

    fn index(&self) -> (r: usize)
        ensures
            r == self.spec_index(),
    {
        match self {
            UiElement::StatusPanel => 0,
            UiElement::TrafficLight => 1,
            UiElement::EmergencyAlert => 2,
            UiElement::StatisticsBoard => 3,
            UiElement::ControlsHelp => 4,
        }
    }
}

/// The row of a direction in the road template table.
pub open spec fn spec_direction_index(d: Direction) -> int {
    match d {
        Direction::North => 0,
        Direction::South => 1,
        Direction::East => 2,
        Direction::West => 3,
    }
}

fn direction_index(d: Direction) -> (r: usize)
    ensures
        r == spec_direction_index(d),
{
    match d {
        Direction::North => 0,
        Direction::South => 1,
        Direction::East => 2,
        Direction::West => 3,
    }
}

/// The row of a vehicle type and direction in the sprite table.
pub open spec fn spec_sprite_index(t: VehicleType, d: Direction) -> int {
    (match t {
        VehicleType::Car => 0int,
        VehicleType::Truck => 4int,
        VehicleType::Emergency => 8int,
    }) + spec_direction_index(d)
}

/// The glyph drawn for a vehicle type heading in a direction.
pub open spec fn spec_art_vehicle_sprite(t: VehicleType, d: Direction) -> Seq<char> {
    match t {
        VehicleType::Car => match d {
            Direction::North => "\u{25b2}"@,
            Direction::South => "\u{25bc}"@,
            Direction::East => "\u{25ba}"@,
            Direction::West => "\u{25c4}"@,
        },
        VehicleType::Truck => "\u{2588}"@,
        VehicleType::Emergency => "\u{2666}"@,
    }
}

/// ASCII art templates for the drawable elements. The tables are vectors
/// indexed by the fixed rows of the enum index functions: four road
/// templates by direction, twelve vehicle glyphs by type and direction,
/// four weather sprite sets and five UI templates.
#[derive(Debug, Clone)]
pub struct AsciiArt {
    pub intersection_template: Vec<String>,
    pub road_templates: Vec<Vec<String>>,
    pub vehicle_sprites: Vec<String>,
    pub weather_effects: Vec<Vec<String>>,
    pub ui_elements: Vec<Vec<String>>,
}

impl AsciiArt {
    /// Every table has its fixed number of rows.
    pub open spec fn wf(self) -> bool {
        &&& self.intersection_template@.len() == 7
        &&& self.road_templates@.len() == 4
        &&& self.vehicle_sprites@.len() == 12
        &&& self.weather_effects@.len() == 4
        &&& self.ui_elements@.len() == 5
    }

    /// The stored glyph for a vehicle type and direction.
    pub open spec fn spec_vehicle_sprite(self, t: VehicleType, d: Direction) -> Seq<char> {
        self.vehicle_sprites@[spec_sprite_index(t, d)]@
    }

    /// Create the art collection with all tables filled.
    pub fn new() -> (r: Self)
        ensures
            r.wf(),
            forall|t: VehicleType, d: Direction|
                #[trigger] r.spec_vehicle_sprite(t, d) == spec_art_vehicle_sprite(t, d),
            forall|i: int| 0 <= i < 4 ==> #[trigger] r.weather_effects@[i]@.len() == (
                if i == 0 { 0int } else if i == 3 { 3int } else { 4int }
            ),
            forall|i: int| 0 <= i < 5 ==> #[trigger] r.ui_elements@[i]@.len() > 0,
    {
        let mut intersection_template: Vec<String> = Vec::new();
        intersection_template.push("\u{250c}\u{2500}\u{2500}\u{2500}\u{2500}\u{2500}\u{252c}\u{2500}\u{2500}\u{2500}\u{2500}\u{2500}\u{2510}".to_owned());
        intersection_template.push("\u{2502}     \u{2502}     \u{2502}".to_owned());
        intersection_template.push("\u{2502}     \u{2502}     \u{2502}".to_owned());
        intersection_template.push("\u{251c}\u{2500}\u{2500}\u{2500}\u{2500}\u{2500}\u{253c}\u{2500}\u{2500}\u{2500}\u{2500}\u{2500}\u{2524}".to_owned());
        intersection_template.push("\u{2502}     \u{2502}     \u{2502}".to_owned());
        intersection_template.push("\u{2502}     \u{2502}     \u{2502}".to_owned());
        intersection_template.push("\u{2514}\u{2500}\u{2500}\u{2500}\u{2500}\u{2500}\u{2534}\u{2500}\u{2500}\u{2500}\u{2500}\u{2500}\u{2518}".to_owned());

        // Vertical roads for north and south, horizontal for east and west.
        let mut vertical: Vec<String> = Vec::new();
        vertical.push("\u{2551}".to_owned());
        vertical.push("\u{2502}".to_owned());
        vertical.push("\u{2551}".to_owned());
        let mut horizontal: Vec<String> = Vec::new();
        horizontal.push("\u{2550}\u{2550}\u{2550}\u{2550}\u{2550}\u{2550}\u{2550}\u{2550}\u{2550}\u{2550}\u{2550}".to_owned());
        horizontal.push("\u{2500}\u{2500}\u{2500}\u{2500}\u{2500}\u{2500}\u{2500}\u{2500}\u{2500}\u{2500}\u{2500}".to_owned());
        horizontal.push("\u{2550}\u{2550}\u{2550}\u{2550}\u{2550}\u{2550}\u{2550}\u{2550}\u{2550}\u{2550}\u{2550}".to_owned());

        let mut road_templates: Vec<Vec<String>> = Vec::new();
        road_templates.push(vertical.clone());
        road_templates.push(vertical);
        road_templates.push(horizontal.clone());
        road_templates.push(horizontal);

        let mut vehicle_sprites: Vec<String> = Vec::new();
        vehicle_sprites.push("\u{25b2}".to_owned());
        vehicle_sprites.push("\u{25bc}".to_owned());
        vehicle_sprites.push("\u{25ba}".to_owned());
        vehicle_sprites.push("\u{25c4}".to_owned());
        vehicle_sprites.push("\u{2588}".to_owned());
        vehicle_sprites.push("\u{2588}".to_owned());
        vehicle_sprites.push("\u{2588}".to_owned());
        vehicle_sprites.push("\u{2588}".to_owned());
        vehicle_sprites.push("\u{2666}".to_owned());
        vehicle_sprites.push("\u{2666}".to_owned());
        vehicle_sprites.push("\u{2666}".to_owned());
        vehicle_sprites.push("\u{2666}".to_owned());

        let mut rain: Vec<String> = Vec::new();
        rain.push("\u{2571}".to_owned());
        rain.push("\u{2572}".to_owned());
        rain.push("\u{2571}".to_owned());
        rain.push("\u{2572}".to_owned());
        let mut snow: Vec<String> = Vec::new();
        snow.push("\u{2744}".to_owned());
        snow.push("\u{2745}".to_owned());
        snow.push("\u{2746}".to_owned());
        snow.push("*".to_owned());
        let mut fog: Vec<String> = Vec::new();
        fog.push("\u{2591}".to_owned());
        fog.push("\u{2592}".to_owned());
        fog.push("\u{2593}".to_owned());

        let mut weather_effects: Vec<Vec<String>> = Vec::new();
        weather_effects.push(Vec::new());
        weather_effects.push(rain);
        weather_effects.push(snow);
        weather_effects.push(fog);

        let mut status_panel: Vec<String> = Vec::new();
        status_panel.push("\u{2554}\u{2550}\u{2550} TRAFFIC CONTROL \u{2550}\u{2550}\u{2557}".to_owned());
        status_panel.push("\u{2551} Status: OPERATIONAL \u{2551}".to_owned());
        status_panel.push("\u{2551} Vehicles: 000       \u{2551}".to_owned());
        status_panel.push("\u{2551} Efficiency: 100%    \u{2551}".to_owned());
        status_panel.push("\u{2551} Emergency: OFF      \u{2551}".to_owned());
        status_panel.push("\u{255a}\u{2550}\u{2550}\u{2550}\u{2550}\u{2550}\u{2550}\u{2550}\u{2550}\u{2550}\u{2550}\u{2550}\u{2550}\u{2550}\u{2550}\u{2550}\u{2550}\u{2550}\u{2550}\u{2550}\u{2550}\u{2550}\u{255d}".to_owned());

        let mut traffic_light: Vec<String> = Vec::new();
        traffic_light.push("\u{250c}\u{2500}\u{2510}".to_owned());
        traffic_light.push("\u{2502}\u{25cf}\u{2502}".to_owned());
        traffic_light.push("\u{2502}\u{25cf}\u{2502}".to_owned());
        traffic_light.push("\u{2502}\u{25cf}\u{2502}".to_owned());
        traffic_light.push("\u{2514}\u{2500}\u{2518}".to_owned());

        let mut emergency_alert: Vec<String> = Vec::new();
        emergency_alert.push("\u{26a0} EMERGENCY VEHICLE \u{26a0}".to_owned());
        emergency_alert.push("  ALL LIGHTS OVERRIDE  ".to_owned());
        emergency_alert.push("   PLEASE STAND BY     ".to_owned());

        let mut statistics_board: Vec<String> = Vec::new();
        statistics_board.push("\u{2554}\u{2550}\u{2550} STATISTICS \u{2550}\u{2550}\u{2557}".to_owned());
        statistics_board.push("\u{2551} Processed: 0000  \u{2551}".to_owned());
        statistics_board.push("\u{2551} Avg Wait: 00.0s  \u{2551}".to_owned());
        statistics_board.push("\u{2551} Efficiency: 100% \u{2551}".to_owned());
        statistics_board.push("\u{255a}\u{2550}\u{2550}\u{2550}\u{2550}\u{2550}\u{2550}\u{2550}\u{2550}\u{2550}\u{2550}\u{2550}\u{2550}\u{2550}\u{2550}\u{2550}\u{2550}\u{2550}\u{2550}\u{255d}".to_owned());

        let mut controls_help: Vec<String> = Vec::new();
        controls_help.push("\u{2554}\u{2550}\u{2550} CONTROLS \u{2550}\u{2550}\u{2557}".to_owned());
        controls_help.push("\u{2551} E - Emergency   \u{2551}".to_owned());
        controls_help.push("\u{2551} R - Rain        \u{2551}".to_owned());
        controls_help.push("\u{2551} S - Snow        \u{2551}".to_owned());
        controls_help.push("\u{2551} F - Fog         \u{2551}".to_owned());
        controls_help.push("\u{2551} + - More Cars   \u{2551}".to_owned());
        controls_help.push("\u{2551} - - Fewer Cars  \u{2551}".to_owned());
        controls_help.push("\u{2551} Q - Quit        \u{2551}".to_owned());
        controls_help.push("\u{255a}\u{2550}\u{2550}\u{2550}\u{2550}\u{2550}\u{2550}\u{2550}\u{2550}\u{2550}\u{2550}\u{2550}\u{2550}\u{2550}\u{255d}".to_owned());

        let mut ui_elements: Vec<Vec<String>> = Vec::new();
        ui_elements.push(status_panel);
        ui_elements.push(traffic_light);
        ui_elements.push(emergency_alert);
        ui_elements.push(statistics_board);
        ui_elements.push(controls_help);

        let r = Self {
            intersection_template,
            road_templates,
            vehicle_sprites,
            weather_effects,
            ui_elements,
        };
        proof {
            assert forall|t: VehicleType, d: Direction|
                #[trigger] r.spec_vehicle_sprite(t, d) == spec_art_vehicle_sprite(t, d) by {
                assert(0 <= spec_sprite_index(t, d) < 12);
            }
        }
        r
    }

    /// Get the glyph for a vehicle type and direction; a question mark when
    /// the tables are malformed.
    pub fn get_vehicle_sprite(&self, vehicle_type: VehicleType, direction: Direction) -> (r: &str)
        ensures
            self.wf() ==> r@ == self.spec_vehicle_sprite(vehicle_type, direction),
    {
        let idx = match vehicle_type {
            VehicleType::Car => 0usize,
            VehicleType::Truck => 4usize,
            VehicleType::Emergency => 8usize,
        } + direction_index(direction);
        if idx < self.vehicle_sprites.len() {
            self.vehicle_sprites[idx].as_str()
        } else {
            "?"
        }
    }

    /// Get a weather effect sprite: frame `frame` of the weather's sprite
    /// cycle, or `None` when that weather has no sprites.
    pub fn get_weather_sprite(&self, weather: WeatherType, frame: usize) -> (r: Option<&str>)
        ensures
            self.wf() ==> {
                let sprites = self.weather_effects@[weather.spec_index()]@;
                &&& (r is Some <==> sprites.len() > 0)
                &&& (sprites.len() > 0 ==> (r matches Some(s)
                    && s@ == sprites[(frame as int) % (sprites.len() as int)]@))
            },
    {
        let idx = weather.index();
        if idx >= self.weather_effects.len() {
            return None;
        }
        let sprites = &self.weather_effects[idx];
        if sprites.len() == 0 {
            return None;
        }
        Some(sprites[frame % sprites.len()].as_str())
    }

    /// Get the template lines of a UI element.
    pub fn get_ui_template(&self, element: UiElement) -> (r: Option<&Vec<String>>)
        ensures
            self.wf() ==> (r matches Some(t) && t@ == self.ui_elements@[element.spec_index()]@),
    {
        let idx = element.index();
        if idx < self.ui_elements.len() {
            Some(&self.ui_elements[idx])
        } else {
            None
        }
    }
}

/// Time of day for different visual themes.
#[derive(Debug, Clone, Copy, PartialEq, Eq, Structural)]
pub enum TimeOfDay {
    Dawn,
    Day,
    Dusk,
    Night,
}

/// City layout renderer state: the art tables, the weather effect shown, its
/// animation frame and the visual theme.
#[derive(Debug)]
pub struct CityRenderer {
    pub ascii_art: AsciiArt,
    pub weather: WeatherType,
    pub weather_frame: usize,
    pub time_of_day: TimeOfDay,
}

impl CityRenderer {
    pub fn new() -> (r: Self)
        ensures
            r.ascii_art.wf(),
            r.weather is Clear,
            r.weather_frame == 0,
            r.time_of_day is Day,
    {
        Self {
            ascii_art: AsciiArt::new(),
            weather: WeatherType::Clear,
            weather_frame: 0,
            time_of_day: TimeOfDay::Day,
        }
    }

    /// Advance the weather animation by one frame, wrapping at 100.
    pub fn update_weather_frame(&mut self)
        ensures
            final(self).weather_frame == (old(self).weather_frame + 1) % 100,
            final(self).weather == old(self).weather,
            final(self).time_of_day == old(self).time_of_day,
            final(self).ascii_art == old(self).ascii_art,
    {
        self.weather_frame = (self.weather_frame % 100 + 1) % 100;
        proof {
            vstd::arithmetic::div_mod::lemma_mod_twice(old(self).weather_frame as int + 1, 100);
            vstd::arithmetic::div_mod::lemma_add_mod_noop_right(1, old(self).weather_frame as int, 100);
        }
    }

    /// Set the weather effect and restart its animation.
    pub fn set_weather(&mut self, weather: WeatherType)
        ensures
            final(self).weather == weather,
            final(self).weather_frame == 0,
            final(self).time_of_day == old(self).time_of_day,
            final(self).ascii_art == old(self).ascii_art,
    {
        self.weather = weather;
        self.weather_frame = 0;
    }

    /// Set the visual theme.
    pub fn set_time_of_day(&mut self, time: TimeOfDay)
        ensures
            final(self).time_of_day == time,
            final(self).weather == old(self).weather,
            final(self).weather_frame == old(self).weather_frame,
            final(self).ascii_art == old(self).ascii_art,
    {
        self.time_of_day = time;
    }
}

} // verus!
