//! User interface state: screen layout geometry, status panels and the alert
//! system. Drawing to the terminal happens outside this crate; these types
//! hold and update what gets drawn.

use vstd::prelude::*;

verus! {

/// A screen region used for dirty-area tracking.
#[derive(Debug, Clone, Copy)]
pub struct Region {
    pub x: usize,
    pub y: usize,
    pub width: usize,
    pub height: usize,
}

impl Region {
    pub fn new(x: usize, y: usize, width: usize, height: usize) -> (r: Self)
        ensures
            r.x == x && r.y == y && r.width == width && r.height == height,
    {
        Self { x, y, width, height }
    }

    /// Whether the point lies inside the region.
    pub fn contains_point(&self, x: usize, y: usize) -> (r: bool)
        ensures
            r == (self.x <= x && x < self.x + self.width
                && self.y <= y && y < self.y + self.height),
    {
        (x as u128) >= (self.x as u128) && (x as u128) < (self.x as u128) + (self.width as u128)
            && (y as u128) >= (self.y as u128)
            && (y as u128) < (self.y as u128) + (self.height as u128)
    }

    /// Whether two regions share at least one cell.
    pub fn overlaps(&self, other: &Region) -> (r: bool)
        ensures
            r == !(self.x + self.width <= other.x || other.x + other.width <= self.x
                || self.y + self.height <= other.y || other.y + other.height <= self.y),
    {
        !((self.x as u128) + (self.width as u128) <= (other.x as u128)
            || (other.x as u128) + (other.width as u128) <= (self.x as u128)
            || (self.y as u128) + (self.height as u128) <= (other.y as u128)
            || (other.y as u128) + (other.height as u128) <= (self.y as u128))
    }
}

/// Easing curves for animations; the curves themselves are applied by the
/// rendering layer.
#[derive(Debug, Clone, Copy, PartialEq, Eq, Structural)]
pub enum EasingFunction {
    Linear,
    EaseIn,
    EaseOut,
    EaseInOut,
}

/// Input events the application reacts to; mapping from raw terminal input
/// happens outside this crate.
#[derive(Debug, Clone, PartialEq, Eq, Structural)]
pub enum InputEvent {
    Char(char),
    Enter,
    Escape,
    ArrowUp,
    ArrowDown,
    ArrowLeft,
    ArrowRight,
    Function(u8),
    Resize(u16, u16),
    Quit,
    Unknown,
}

/// What the terminal offers; detected by the terminal layer outside this
/// crate.
#[derive(Debug)]
pub struct TerminalCapabilities {
    pub supports_color: bool,
    pub supports_unicode: bool,
    pub supports_mouse: bool,
    pub width: u16,
    pub height: u16,
}

impl TerminalCapabilities {
    /// Check if the terminal is large enough for the application: at least
    /// 80 columns by 24 rows.
    pub fn is_adequate_size(&self) -> (r: bool)
        ensures
            r == (self.width >= 80 && self.height >= 24),
    {
        self.width >= 80 && self.height >= 24
    }

    /// Get the recommended screen buffer size (columns, rows).
    pub fn recommended_buffer_size(&self) -> (r: (usize, usize))
        ensures
            r.0 == self.width as usize,
            r.1 == self.height as usize,
    {
        (self.width as usize, self.height as usize)
    }
}

/// A rectangle for UI positioning.
#[derive(Debug, Clone, Copy)]
pub struct Rectangle {
    pub x: usize,
    pub y: usize,
    pub width: usize,
    pub height: usize,
}

impl Rectangle {
    pub fn new(x: usize, y: usize, width: usize, height: usize) -> (r: Self)
        ensures
            r.x == x && r.y == y && r.width == width && r.height == height,
    {
        Self { x, y, width, height }
    }

    /// Whether the point lies inside the rectangle.
    pub fn contains_point(&self, x: usize, y: usize) -> (r: bool)
        ensures
            r == (self.x <= x && x < self.x + self.width
                && self.y <= y && y < self.y + self.height),
    {
        (x as u128) >= (self.x as u128) && (x as u128) < (self.x as u128) + (self.width as u128)
            && (y as u128) >= (self.y as u128)
            && (y as u128) < (self.y as u128) + (self.height as u128)
    }

    /// The center point of the rectangle.
    pub fn center(&self) -> (r: (usize, usize))
        requires
            self.x + self.width <= usize::MAX,
            self.y + self.height <= usize::MAX,
        ensures
            r.0 == self.x + self.width / 2,
            r.1 == self.y + self.height / 2,
    {
        (self.x + self.width / 2, self.y + self.height / 2)
    }
}

/// The screen layout: where each panel of the interface is drawn.
#[derive(Debug, Clone)]
pub struct Layout {
    pub simulation_area: Rectangle,
    pub status_area: Rectangle,
    pub statistics_area: Rectangle,
    pub controls_area: Rectangle,
    pub alert_area: Rectangle,
}

impl Layout {
    /// The main area width for a screen: the full width less a 30-column
    /// side panel, clamped at zero.
    pub open spec fn spec_main_width(screen_width: usize) -> usize {
        if screen_width >= 30 { (screen_width - 30) as usize } else { 0 }
    }

    /// Create the default layout for the given screen size: the simulation
    /// area on the left, status, statistics and controls panels stacked on
    /// the right, and a centered alert strip.
    pub fn new(screen_width: usize, screen_height: usize) -> (r: Self)
        requires
            screen_width <= 1000000,
            screen_height <= 1000000,
        ensures
            r.simulation_area.x == 1 && r.simulation_area.y == 1,
            r.simulation_area.width == Self::spec_main_width(screen_width),
            r.simulation_area.height == (if screen_height >= 2 { (screen_height - 2) as usize } else { 0 }),
            r.status_area.x == Self::spec_main_width(screen_width) + 2,
            r.status_area.y == 1 && r.status_area.width == 28 && r.status_area.height == 12,
            r.statistics_area.x == Self::spec_main_width(screen_width) + 2,
            r.statistics_area.y == 14 && r.statistics_area.width == 28 && r.statistics_area.height == 10,
            r.controls_area.x == Self::spec_main_width(screen_width) + 2,
            r.controls_area.y == 25 && r.controls_area.width == 28 && r.controls_area.height == 10,
            r.alert_area.x == Self::spec_main_width(screen_width) / 4,
            r.alert_area.y == 2,
            r.alert_area.width == Self::spec_main_width(screen_width) / 2,
            r.alert_area.height == 5,
    {
        let main_width: usize = if screen_width >= 30 { screen_width - 30 } else { 0 };
        let panel_width: usize = 28;
        let sim_height: usize = if screen_height >= 2 { screen_height - 2 } else { 0 };

        Self {
            simulation_area: Rectangle::new(1, 1, main_width, sim_height),
            status_area: Rectangle::new(main_width + 2, 1, panel_width, 12),
            statistics_area: Rectangle::new(main_width + 2, 14, panel_width, 10),
            controls_area: Rectangle::new(main_width + 2, 25, panel_width, 10),
            alert_area: Rectangle::new(main_width / 4, 2, main_width / 2, 5),
        }
    }

    /// Adjust the layout for a screen resize.
    pub fn resize(&mut self, new_width: usize, new_height: usize)
        requires
            new_width <= 1000000,
            new_height <= 1000000,
        ensures
            final(self).simulation_area.width == Self::spec_main_width(new_width),
            final(self).status_area.x == Self::spec_main_width(new_width) + 2,
    {
        *self = Layout::new(new_width, new_height);
    }
}

/// System status levels for the status panel.
#[derive(Debug, Clone, Copy, PartialEq, Eq, Structural)]
pub enum SystemStatus {
    Operational,
    Warning,
    Emergency,
    Error,
}

impl SystemStatus {
    /// The label shown for this status.
    pub fn text(&self) -> (r: &'static str)
        ensures
            self is Operational ==> r@ == "OPERATIONAL"@,
            self is Warning ==> r@ == "WARNING"@,
            self is Emergency ==> r@ == "EMERGENCY"@,
            self is Error ==> r@ == "ERROR"@,
    {
        match self {
            SystemStatus::Operational => "OPERATIONAL",
            SystemStatus::Warning => "WARNING",
            SystemStatus::Emergency => "EMERGENCY",
            SystemStatus::Error => "ERROR",
        }
    }
}

/// The state shown by the status panel.
#[derive(Debug)]
pub struct StatusPanel {
    pub emergency_active: bool,
    pub weather_type: String,
    pub time_of_day: String,
    pub system_status: SystemStatus,
    pub intersection_count: usize,
    pub total_vehicles: usize,
}

impl StatusPanel {
    pub fn new() -> (r: Self)
        ensures
            !r.emergency_active,
            r.weather_type@ == "Clear"@,
            r.time_of_day@ == "Day"@,
            r.system_status is Operational,
            r.intersection_count == 0,
            r.total_vehicles == 0,
    {
        Self {
            emergency_active: false,
            weather_type: "Clear".to_owned(),
            time_of_day: "Day".to_owned(),
            system_status: SystemStatus::Operational,
            intersection_count: 0,
            total_vehicles: 0,
        }
    }
}

/// Live-vehicle counts by type, for the statistics panel.
#[derive(Debug, Clone, PartialEq, Eq, Structural)]
pub struct VehicleBreakdown {
    pub cars: u32,
    pub trucks: u32,
    pub emergency: u32,
}

impl VehicleBreakdown {
    pub fn new() -> (r: Self)
        ensures
            r.cars == 0 && r.trucks == 0 && r.emergency == 0,
    {
        Self { cars: 0, trucks: 0, emergency: 0 }
    }
}

/// The controls-help panel.
#[derive(Debug)]
pub struct ControlsPanel {
    pub visible: bool,
    pub help_mode: bool,
}

impl ControlsPanel {
    pub fn new() -> (r: Self)
        ensures
            r.visible,
            !r.help_mode,
    {
        Self { visible: true, help_mode: false }
    }

    /// Show the panel if hidden and hide it if shown.
    pub fn toggle_visibility(&mut self)
        ensures
            final(self).visible == !old(self).visible,
            final(self).help_mode == old(self).help_mode,
    {
        self.visible = !self.visible;
    }
}

/// Alert severity levels.
#[derive(Debug, Clone, Copy, PartialEq, Eq, Structural)]
pub enum AlertLevel {
    Info,
    Warning,
    Emergency,
    Critical,
}

impl AlertLevel {
    /// The numeric priority of this level: 1 for info up to 4 for critical.
    pub open spec fn spec_priority(self) -> u8 {
        match self {
            AlertLevel::Info => 1,
            AlertLevel::Warning => 2,
            AlertLevel::Emergency => 3,
            AlertLevel::Critical => 4,
        }
    }

    /// Get the numeric priority (1 info to 4 critical).
    pub fn priority(&self) -> (r: u8)
        ensures
            r == self.spec_priority(),
    {
        match self {
            AlertLevel::Info => 1,
            AlertLevel::Warning => 2,
            AlertLevel::Emergency => 3,
            AlertLevel::Critical => 4,
        }
    }
}

/// A notification shown to the user. `age` accumulates the milliseconds
/// since the alert was raised; emergency and critical alerts are persistent
/// and never expire on their own.
#[derive(Debug, Clone)]
pub struct Alert {
    pub message: String,
    pub level: AlertLevel,
    pub duration: u64,
    pub age: u64,
    pub persistent: bool,
}

/// The alert system: at most one alert is current; the rest wait in a queue
/// ordered by priority, highest first.
#[derive(Debug)]
pub struct AlertSystem {
    pub current_alert: Option<Alert>,
    pub alert_queue: Vec<Alert>,
    pub blink_state: bool,
    pub blink_elapsed: u64,
}

impl AlertSystem {
    pub fn new() -> (r: Self)
        ensures
            r.current_alert is None,
            r.alert_queue@ == Seq::<Alert>::empty(),
            !r.blink_state,
            r.blink_elapsed == 0,
    {
        let r = Self {
            current_alert: None,
            alert_queue: Vec::new(),
            blink_state: false,
            blink_elapsed: 0,
        };
        proof {
            assert(r.alert_queue@ =~= Seq::<Alert>::empty());
        }
        r
    }

    /// Queue an alert with the given message, level and display duration in
    /// milliseconds. Emergency and critical alerts are persistent. The alert
    /// is inserted before the first queued alert of strictly lower priority,
    /// or at the end.
    pub fn add_alert(&mut self, message: String, level: AlertLevel, duration_ms: u64)
        ensures
            final(self).alert_queue@.len() == old(self).alert_queue@.len() + 1,
            final(self).current_alert == old(self).current_alert,
            final(self).blink_state == old(self).blink_state,
            final(self).blink_elapsed == old(self).blink_elapsed,
            exists|k: int| {
                &&& 0 <= k <= old(self).alert_queue@.len()
                &&& final(self).alert_queue@[k].level == level
                &&& final(self).alert_queue@[k].duration == duration_ms
                &&& final(self).alert_queue@[k].age == 0
                &&& final(self).alert_queue@[k].persistent
                    == (level is Critical || level is Emergency)
                &&& (forall|i: int| 0 <= i < k
                    ==> #[trigger] final(self).alert_queue@[i] == old(self).alert_queue@[i])
                &&& (forall|i: int| k < i < final(self).alert_queue@.len()
                    ==> #[trigger] final(self).alert_queue@[i] == old(self).alert_queue@[i - 1])
            },
    {
        let persistent = matches!(level, AlertLevel::Critical) || matches!(level, AlertLevel::Emergency);
        let alert = Alert {
            message,
            level,
            duration: duration_ms,
            age: 0,
            persistent,
        };

        let mut idx: usize = 0;
        let new_priority = level.priority();
        while idx < self.alert_queue.len()
            invariant
                idx <= self.alert_queue@.len(),
                *self == *old(self),
                new_priority == level.spec_priority(),
                forall|i: int| 0 <= i < idx
                    ==> !(new_priority > #[trigger] self.alert_queue@[i].level.spec_priority()),
            decreases self.alert_queue@.len() - idx,
        {
            if new_priority > self.alert_queue[idx].level.priority() {
                break;
            }
            idx += 1;
        }

        let ghost orig = self.alert_queue@;
        self.alert_queue.insert(idx, alert);
        proof {
            orig.insert_ensures(idx as int, alert);
            assert(self.alert_queue@ == orig.insert(idx as int, alert));
            assert(self.alert_queue@[idx as int] == alert);
            assert(forall|i: int| 0 <= i < idx
                ==> #[trigger] self.alert_queue@[i] == orig[i]);
            assert(forall|i: int| idx < i < self.alert_queue@.len()
                ==> #[trigger] self.alert_queue@[i] == orig[i - 1]);
        }
    }

    /// Whether the current alert, aged by `dt_ms`, has outlived its display
    /// duration; persistent alerts never expire on their own.
    pub open spec fn spec_expires(a: Alert, dt_ms: u64) -> bool {
        !a.persistent && a.age.saturating_add(dt_ms) >= a.duration
    }

    /// With no current alert, the head of queue `q0` (if any) is promoted to
    /// current: this relates the queue and current alert afterwards.
    pub open spec fn spec_promoted(q0: Seq<Alert>, current: Option<Alert>, q1: Seq<Alert>) -> bool {
        if q0.len() > 0 {
            current == Some(q0[0]) && q1 == q0.drop_first()
        } else {
            current is None && q1 == q0
        }
    }

    /// Advance the alert system by `dt_ms`: toggle the blink phase every
    /// half second, age and expire the current alert, and promote the next
    /// queued alert when none is current.
    pub fn update(&mut self, dt_ms: u64)
        ensures
            // Blink phase: flip and restart every half second of age.
            ({
                let blinked = old(self).blink_elapsed.saturating_add(dt_ms);
                if blinked >= 500 {
                    final(self).blink_state == !old(self).blink_state
                        && final(self).blink_elapsed == 0
                } else {
                    final(self).blink_state == old(self).blink_state
                        && final(self).blink_elapsed == blinked
                }
            }),
            // A live current alert ages in place; an expired one gives way
            // to the head of the queue.
            old(self).current_alert matches Some(a) ==> (if Self::spec_expires(a, dt_ms) {
                Self::spec_promoted(
                    old(self).alert_queue@,
                    final(self).current_alert,
                    final(self).alert_queue@,
                )
            } else {
                final(self).current_alert == Some(Alert { age: a.age.saturating_add(dt_ms), ..a })
                    && final(self).alert_queue == old(self).alert_queue
            }),
            // With no current alert the head of the queue is promoted.
            old(self).current_alert is None ==> Self::spec_promoted(
                old(self).alert_queue@,
                final(self).current_alert,
                final(self).alert_queue@,
            ),
    {
        self.blink_elapsed = self.blink_elapsed.saturating_add(dt_ms);
        if self.blink_elapsed >= 500 {
            self.blink_state = !self.blink_state;
            self.blink_elapsed = 0;
        }

        let expired = match &self.current_alert {
            Some(alert) => {
                !alert.persistent && alert.age.saturating_add(dt_ms) >= alert.duration
            }
            None => false,
        };
        if expired {
            self.current_alert = None;
        } else {
            match &mut self.current_alert {
                Some(alert) => {
                    alert.age = alert.age.saturating_add(dt_ms);
                }
                None => {}
            }
        }

        if self.current_alert.is_none() && self.alert_queue.len() > 0 {
            let next = self.alert_queue.remove(0);
            self.current_alert = Some(next);
            proof {
                assert(self.alert_queue@ =~= old(self).alert_queue@.drop_first());
            }
        }
    }

    /// Dismiss the current alert.
    pub fn clear_current(&mut self)
        ensures
            final(self).current_alert is None,
            final(self).alert_queue == old(self).alert_queue,
            final(self).blink_state == old(self).blink_state,
            final(self).blink_elapsed == old(self).blink_elapsed,
    {
        self.current_alert = None;
    }

    /// Dismiss the current alert and empty the queue.
    pub fn clear_all(&mut self)
        ensures
            final(self).current_alert is None,
            final(self).alert_queue@ == Seq::<Alert>::empty(),
    {
        self.current_alert = None;
        self.alert_queue.clear();
        proof {
            assert(self.alert_queue@ =~= Seq::<Alert>::empty());
        }
    }
}

} // verus!
