//! The settings that the watch keeps between sessions.

use vstd::prelude::*;

verus! {

/// What the owner of the watch has chosen, and the state of the alarm.
///
/// `alarm_time` is written as `HH:MM`. The engine sets it when the alarm is
/// switched on and clears it when the alarm is switched off, but a stored
/// record may hold a time beside a disabled alarm, or none beside an enabled
/// one: both are tolerated.
#[derive(Debug, Clone)]
pub struct WatchSettings {
    pub time_format_24h: bool,
    /// `true` writes the month first, `false` the day.
    pub date_format_us: bool,
    /// Seconds after which the backlight goes out by itself.
    pub auto_light_duration: u64,
    pub alarm_enabled: bool,
    pub alarm_time: Option<String>,
}

impl WatchSettings {
    /// The settings of a watch that has never been set.
    pub open spec fn is_factory(&self) -> bool {
        &&& !self.time_format_24h
        &&& self.date_format_us
        &&& self.auto_light_duration == 1
        &&& !self.alarm_enabled
        &&& self.alarm_time is None
    }
}

impl Default for WatchSettings {
    fn default() -> (settings: Self)
        ensures
            settings.is_factory(),
    {
        WatchSettings {
            time_format_24h: false,
            date_format_us: true,
            auto_light_duration: 1,
            alarm_enabled: false,
            alarm_time: None,
        }
    }
}

} // verus!
