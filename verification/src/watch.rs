//! The watch: what it shows, what runs inside it, and what each button and
//! each tick of the polling loop does to it.

use vstd::prelude::*;

use crate::clock::{lemma_having_read, MonotonicClock};
use crate::elapsed::{
    capped, elapsed_since, lemma_light_out_when_time_is_up, Backlight, ElapsedTimer,
};
use crate::settings::WatchSettings;
use crate::time::{
    alarm_target, hour_minute_text, local_time_in, minute_matches, ClockReading, TimeManager,
};

verus! {

/// How many minutes after it is switched on the alarm is due. The watch has
/// no way to enter an alarm time, so switching the alarm on sets it to go off
/// this soon.
pub const ALARM_LEAD_MINUTES: u32 = 1;

/// The two watches. The model is chosen once and never changes.
#[derive(Debug, Clone, Copy, PartialEq, Eq, Structural)]
pub enum WatchModel {
    /// The multi-function watch, with five modes.
    Standard,
    /// The simpler watch, with three modes.
    Minimal,
}

/// What the multi-function watch shows. The mode button goes through the
/// modes in the order in which they stand here, and from the last to the
/// first.
#[derive(Debug, Clone, Copy, PartialEq, Eq, Structural)]
pub enum WatchMode {
    Home,
    WorldTime,
    Alarm,
    Timer,
    Stopwatch,
}

/// What the simpler watch shows, in the order of its mode button.
#[derive(Debug, Clone, Copy, PartialEq, Eq, Structural)]
pub enum F91WMode {
    Time,
    Alarm,
    Stopwatch,
}

impl WatchModel {
    /// The number of modes that the mode button goes through.
    pub open spec fn mode_count(self) -> nat {
        match self {
            WatchModel::Standard => 5,
            WatchModel::Minimal => 3,
        }
    }
}

impl WatchMode {
    /// The place of the mode in the cycle, from 0.
    pub open spec fn position(self) -> int {
        match self {
            WatchMode::Home => 0,
            WatchMode::WorldTime => 1,
            WatchMode::Alarm => 2,
            WatchMode::Timer => 3,
            WatchMode::Stopwatch => 4,
        }
    }

    /// The mode that follows in the cycle.
    pub open spec fn successor(self) -> WatchMode {
        match self {
            WatchMode::Home => WatchMode::WorldTime,
            WatchMode::WorldTime => WatchMode::Alarm,
            WatchMode::Alarm => WatchMode::Timer,
            WatchMode::Timer => WatchMode::Stopwatch,
            WatchMode::Stopwatch => WatchMode::Home,
        }
    }

    /// The mode after `presses` presses of the mode button.
    pub open spec fn advanced(self, presses: nat) -> WatchMode
        decreases presses,
    {
        if presses == 0 {
            self
        } else {
            self.advanced((presses - 1) as nat).successor()
        }
    }

    /// The mode that follows in the cycle.
    pub fn next(self) -> (mode: WatchMode)
        ensures
            mode == self.successor(),
    {
        match self {
            WatchMode::Home => WatchMode::WorldTime,
            WatchMode::WorldTime => WatchMode::Alarm,
            WatchMode::Alarm => WatchMode::Timer,
            WatchMode::Timer => WatchMode::Stopwatch,
            WatchMode::Stopwatch => WatchMode::Home,
        }
    }
}

impl F91WMode {
    /// The place of the mode in the cycle, from 0.
    pub open spec fn position(self) -> int {
        match self {
            F91WMode::Time => 0,
            F91WMode::Alarm => 1,
            F91WMode::Stopwatch => 2,
        }
    }

    /// The mode that follows in the cycle.
    pub open spec fn successor(self) -> F91WMode {
        match self {
            F91WMode::Time => F91WMode::Alarm,
            F91WMode::Alarm => F91WMode::Stopwatch,
            F91WMode::Stopwatch => F91WMode::Time,
        }
    }

    /// The mode after `presses` presses of the mode button.
    pub open spec fn advanced(self, presses: nat) -> F91WMode
        decreases presses,
    {
        if presses == 0 {
            self
        } else {
            self.advanced((presses - 1) as nat).successor()
        }
    }

    /// The mode that follows in the cycle.
    pub fn next(self) -> (mode: F91WMode)
        ensures
            mode == self.successor(),
    {
        match self {
            F91WMode::Time => F91WMode::Alarm,
            F91WMode::Alarm => F91WMode::Stopwatch,
            F91WMode::Stopwatch => F91WMode::Time,
        }
    }
}

/// Each press of the mode button moves the multi-function watch one place on
/// in a cycle of five: it is back at the mode from which it set out after
/// five presses, after every multiple of five, and after no other number.
pub proof fn lemma_mode_cycle(mode: WatchMode, presses: nat)
    ensures
        mode.advanced(presses).position() == (mode.position() + presses) % 5,
        mode.advanced(presses) == mode <==> presses % 5 == 0,
        mode.advanced(5) == mode,
    decreases presses,
{
    reveal_with_fuel(WatchMode::advanced, 6);
    if presses > 0 {
        lemma_mode_cycle(mode, (presses - 1) as nat);
    }
}

/// Each press of the mode button moves the simpler watch one place on in a
/// cycle of three: it is back at the mode from which it set out after three
/// presses, after every multiple of three, and after no other number.
pub proof fn lemma_f91w_mode_cycle(mode: F91WMode, presses: nat)
    ensures
        mode.advanced(presses).position() == (mode.position() + presses) % 3,
        mode.advanced(presses) == mode <==> presses % 3 == 0,
        mode.advanced(3) == mode,
    decreases presses,
{
    reveal_with_fuel(F91WMode::advanced, 4);
    if presses > 0 {
        lemma_f91w_mode_cycle(mode, (presses - 1) as nat);
    }
}

/// The mode button takes a watch through the modes of its model in a cycle:
/// the watch is as it was before the presses after as many presses as the
/// model has modes, after every multiple of that number, and after no other
/// number of presses.
pub proof fn lemma_mode_button_cycle(watch: Watch, presses: nat)
    ensures
        watch.mode_advanced_by(presses) == watch <==> presses % watch.model.mode_count() == 0,
        watch.mode_advanced_by(watch.model.mode_count()) == watch,
        watch.model == WatchModel::Standard ==> watch.mode_advanced_by(presses) == (Watch {
            mode: watch.mode.advanced(presses),
            ..watch
        }),
        watch.model == WatchModel::Minimal ==> watch.mode_advanced_by(presses) == (Watch {
            f91w_mode: watch.f91w_mode.advanced(presses),
            ..watch
        }),
{
    lemma_mode_presses(watch, presses);
    lemma_mode_presses(watch, watch.model.mode_count());
    lemma_mode_cycle(watch.mode, presses);
    lemma_f91w_mode_cycle(watch.f91w_mode, presses);
}

/// Presses of the mode button change the mode of the watch's own model and
/// nothing else.
proof fn lemma_mode_presses(watch: Watch, presses: nat)
    ensures
        watch.model == WatchModel::Standard ==> watch.mode_advanced_by(presses) == (Watch {
            mode: watch.mode.advanced(presses),
            ..watch
        }),
        watch.model == WatchModel::Minimal ==> watch.mode_advanced_by(presses) == (Watch {
            f91w_mode: watch.f91w_mode.advanced(presses),
            ..watch
        }),
    decreases presses,
{
    if presses > 0 {
        lemma_mode_presses(watch, (presses - 1) as nat);
    }
}

/// A tick shows what the clocks show and counts nothing: a second tick on
/// the same two readings changes nothing, and after any tick a tick on new
/// readings leaves the stopwatch and the timer as they would be without the
/// first.
pub proof fn lemma_tick_idempotent(
    watch: Watch,
    reading: ClockReading,
    now: u64,
    earlier_reading: ClockReading,
    earlier: u64,
)
    ensures
        watch.ticked(reading, now).ticked(reading, now) == watch.ticked(reading, now),
        watch.ticked(earlier_reading, earlier).ticked(reading, now).stopwatch == watch.ticked(
            reading,
            now,
        ).stopwatch,
        watch.ticked(earlier_reading, earlier).ticked(reading, now).timer == watch.ticked(
            reading,
            now,
        ).timer,
{
}

/// Start/stop pressed twice on a standing stopwatch or timer, with no tick
/// between: what is shown stands again, it has gained the distance between
/// the two readings of the clock and lost nothing, and from zero it shows
/// exactly that distance.
pub proof fn lemma_start_stop_gains_the_time_between(watch: Watch, started: u64, stopped: u64)
    requires
        !watch.stopwatch.running(),
        !watch.timer.running(),
    ensures
        ({
            let after = watch.start_stop_toggled(started).start_stop_toggled(stopped);
            &&& !after.stopwatch.running() && !after.timer.running()
            &&& watch.shows_stopwatch() ==> after.stopwatch.accumulated_ms == capped(
                watch.stopwatch.accumulated_ms + elapsed_since(started, stopped),
            ) && after.timer == watch.timer
            &&& watch.shows_timer() ==> after.timer.accumulated_ms == capped(
                watch.timer.accumulated_ms + elapsed_since(started, stopped),
            ) && after.stopwatch == watch.stopwatch
            &&& !watch.shows_stopwatch() && !watch.shows_timer() ==> after == watch
            &&& after.stopwatch.accumulated_ms >= watch.stopwatch.accumulated_ms
            &&& after.timer.accumulated_ms >= watch.timer.accumulated_ms
            &&& watch.shows_stopwatch() && watch.stopwatch.accumulated_ms == 0 && started
                <= stopped ==> after.stopwatch.accumulated_ms == stopped - started
            &&& watch.shows_timer() && watch.timer.accumulated_ms == 0 && started <= stopped
                ==> after.timer.accumulated_ms == stopped - started
        }),
{
}

/// Ticks leave the settings and the modes of a watch alone, and do to its
/// light what they do to a light by itself.
pub proof fn lemma_ticks_keep_settings(watch: Watch, ticks: Seq<(ClockReading, u64)>)
    ensures
        watch.ticked_through(ticks).settings == watch.settings,
        watch.ticked_through(ticks).model == watch.model,
        watch.ticked_through(ticks).mode == watch.mode,
        watch.ticked_through(ticks).f91w_mode == watch.f91w_mode,
        watch.ticked_through(ticks).light == watch.light.ticked_through(
            ticks.map_values(|tick: (ClockReading, u64)| tick.1),
            watch.settings.auto_light_duration,
        ),
    decreases ticks.len(),
{
    let times = ticks.map_values(|tick: (ClockReading, u64)| tick.1);
    if ticks.len() > 0 {
        lemma_ticks_keep_settings(watch, ticks.drop_last());
        assert(times.drop_last() =~= ticks.drop_last().map_values(
            |tick: (ClockReading, u64)| tick.1,
        ));
    }
}

/// The light switched on and then off by hand is off, and stays off through
/// every tick that follows, however soon or late.
pub proof fn lemma_light_cancelled_by_hand(
    watch: Watch,
    on_at: u64,
    off_at: u64,
    ticks: Seq<(ClockReading, u64)>,
)
    requires
        !watch.light.on(),
    ensures
        watch.light_toggled(on_at).light.on(),
        watch.light_toggled(on_at).light_toggled(off_at).light == Backlight::Off,
        watch.light_toggled(on_at).light_toggled(off_at).ticked_through(ticks).light
            == Backlight::Off,
    decreases ticks.len(),
{
    if ticks.len() > 0 {
        lemma_light_cancelled_by_hand(watch, on_at, off_at, ticks.drop_last());
    }
}

/// The light switched on and left alone is out after the first tick that
/// comes as many seconds after the press as the settings give the light,
/// whatever ticks came before that one.
pub proof fn lemma_light_goes_out_by_itself(
    watch: Watch,
    on_at: u64,
    ticks: Seq<(ClockReading, u64)>,
)
    requires
        !watch.light.on(),
        ticks.len() > 0,
        ticks.last().1 - on_at >= watch.settings.auto_light_duration * 1000,
    ensures
        watch.light_toggled(on_at).ticked_through(ticks).light == Backlight::Off,
{
    let times = ticks.map_values(|tick: (ClockReading, u64)| tick.1);
    lemma_ticks_keep_settings(watch.light_toggled(on_at), ticks);
    lemma_light_out_when_time_is_up(
        watch.light,
        on_at,
        times,
        watch.settings.auto_light_duration,
    );
}

/// Two readings that the clock of a watch gives one after the other stand in
/// that order, so that the time from the first to the second is their
/// difference and never less than nothing. No button and no tick but those
/// that read the clock change what the clock holds.
pub proof fn lemma_clock_reads_in_order(watch: Watch, first: u64, second: u64)
    requires
        first >= watch.clock.last_reading(),
        second >= watch.clock_read(first).clock.last_reading(),
    ensures
        second >= first,
        elapsed_since(first, second) == second - first,
        watch.clock_read(first).clock_read(second) == watch.clock_read(second),
        watch.clock_read(first).start_stop_toggled(first).clock == watch.clock_read(first).clock,
        watch.clock_read(first).light_toggled(first).clock == watch.clock_read(first).clock,
        watch.clock_read(first).cleared().clock == watch.clock_read(first).clock,
        watch.clock_read(first).mode_advanced().clock == watch.clock_read(first).clock,
{
    lemma_having_read(watch.clock, first, second);
    lemma_having_read(watch.clock, second, first);
}

/// The mode button and the light button leave what runs alone: the stopwatch
/// and the timer go on as they were, whatever the watch shows.
pub proof fn lemma_timers_run_in_background(watch: Watch, now: u64)
    ensures
        watch.mode_advanced().stopwatch == watch.stopwatch,
        watch.mode_advanced().timer == watch.timer,
        watch.mode_advanced().light == watch.light,
        watch.mode_advanced().settings == watch.settings,
        watch.light_toggled(now).stopwatch == watch.stopwatch,
        watch.light_toggled(now).timer == watch.timer,
{
}

/// What a tick has to report.
#[derive(Debug, Clone, Copy, PartialEq, Eq, Structural)]
pub enum TickEvent {
    /// Nothing.
    Quiet,
    /// The alarm is switched on and its minute has come. The watch itself
    /// does nothing about it: sounding the alarm is left to the caller.
    AlarmFired,
}

/// The root of the state: one watch, owned by the loop that polls the keys.
pub struct Watch {
    pub model: WatchModel,
    /// The mode of the multi-function watch. The simpler watch leaves it
    /// alone.
    pub mode: WatchMode,
    /// The mode of the simpler watch. The multi-function watch leaves it
    /// alone.
    pub f91w_mode: F91WMode,
    pub settings: WatchSettings,
    pub time_manager: TimeManager,
    pub stopwatch: ElapsedTimer,
    pub timer: ElapsedTimer,
    pub light: Backlight,
    /// The clock that the buttons and the ticks read.
    pub clock: MonotonicClock,
}

impl Watch {
    /// The reading of the wall clock that the watch holds is a valid one.
    pub open spec fn wf(&self) -> bool {
        self.time_manager.current_time.wf()
    }

    /// The stopwatch is what the watch shows.
    pub open spec fn shows_stopwatch(&self) -> bool {
        match self.model {
            WatchModel::Standard => self.mode == WatchMode::Stopwatch,
            WatchModel::Minimal => self.f91w_mode == F91WMode::Stopwatch,
        }
    }

    /// The timer is what the watch shows.
    pub open spec fn shows_timer(&self) -> bool {
        self.model == WatchModel::Standard && self.mode == WatchMode::Timer
    }

    /// The watch after its clock has given the reading `now`.
    pub open spec fn clock_read(self, now: u64) -> Watch {
        Watch { clock: self.clock.having_read(now), ..self }
    }

    /// The watch after one press of the mode button.
    pub open spec fn mode_advanced(self) -> Watch {
        match self.model {
            WatchModel::Standard => Watch { mode: self.mode.successor(), ..self },
            WatchModel::Minimal => Watch { f91w_mode: self.f91w_mode.successor(), ..self },
        }
    }

    /// The watch after `presses` presses of the mode button.
    pub open spec fn mode_advanced_by(self, presses: nat) -> Watch
        decreases presses,
    {
        if presses == 0 {
            self
        } else {
            self.mode_advanced_by((presses - 1) as nat).mode_advanced()
        }
    }

    /// The watch after start/stop was pressed at `now`: the press goes to the
    /// stopwatch or to the timer, whichever is shown, and is lost in every
    /// other mode.
    pub open spec fn start_stop_toggled(self, now: u64) -> Watch {
        if self.shows_stopwatch() {
            Watch { stopwatch: self.stopwatch.toggled(now), ..self }
        } else if self.shows_timer() {
            Watch { timer: self.timer.toggled(now), ..self }
        } else {
            self
        }
    }

    /// The watch after reset was pressed: the stopwatch or the timer,
    /// whichever is shown, stands at zero.
    pub open spec fn cleared(self) -> Watch {
        if self.shows_stopwatch() {
            Watch { stopwatch: ElapsedTimer::cleared(), ..self }
        } else if self.shows_timer() {
            Watch { timer: ElapsedTimer::cleared(), ..self }
        } else {
            self
        }
    }

    /// The watch after the light button was pressed at `now`.
    pub open spec fn light_toggled(self, now: u64) -> Watch {
        Watch { light: self.light.toggled(now), ..self }
    }

    /// The watch after a tick that read `reading` from the wall clock and
    /// `now` from the monotonic clock.
    pub open spec fn ticked(self, reading: ClockReading, now: u64) -> Watch {
        Watch {
            time_manager: TimeManager { current_time: reading },
            stopwatch: self.stopwatch.ticked(now),
            timer: self.timer.ticked(now),
            light: self.light.ticked(now, self.settings.auto_light_duration),
            ..self
        }
    }

    /// The watch after one tick for each of `ticks`, in their order. Each
    /// tick holds the reading of the wall clock and that of the monotonic
    /// clock.
    pub open spec fn ticked_through(self, ticks: Seq<(ClockReading, u64)>) -> Watch
        decreases ticks.len(),
    {
        if ticks.len() == 0 {
            self
        } else {
            self.ticked_through(ticks.drop_last()).ticked(ticks.last().0, ticks.last().1)
        }
    }

    /// The alarm is switched on and `reading` shows its hour and minute.
    pub open spec fn alarm_due(&self, reading: ClockReading) -> bool {
        self.settings.alarm_enabled && minute_matches(
            reading,
            alarm_target(self.settings.alarm_time),
        )
    }

    /// What a tick that reads `reading` from the wall clock reports.
    pub open spec fn tick_event(&self, reading: ClockReading) -> TickEvent {
        if self.alarm_due(reading) {
            TickEvent::AlarmFired
        } else {
            TickEvent::Quiet
        }
    }

    /// `after` is the watch after the alarm button was pressed, where `due`
    /// is the time at which a newly set alarm goes off: the alarm is on where
    /// it was off and off where it was on; switched on, it is set to the
    /// hour and minute of `due`; switched off, it has no time. Nothing else
    /// has changed.
    pub open spec fn alarm_toggled_to(self, after: Watch, due: ClockReading) -> bool {
        &&& after.settings.alarm_enabled == !self.settings.alarm_enabled
        &&& after.settings.alarm_enabled ==> (after.settings.alarm_time matches Some(text)
            && text@ == hour_minute_text(due))
        &&& !after.settings.alarm_enabled ==> after.settings.alarm_time is None
        &&& after.settings.time_format_24h == self.settings.time_format_24h
        &&& after.settings.date_format_us == self.settings.date_format_us
        &&& after.settings.auto_light_duration == self.settings.auto_light_duration
        &&& after.model == self.model
        &&& after.mode == self.mode
        &&& after.f91w_mode == self.f91w_mode
        &&& after.time_manager == self.time_manager
        &&& after.stopwatch == self.stopwatch
        &&& after.timer == self.timer
        &&& after.light == self.light
        &&& after.clock == self.clock
    }

    /// A watch of the given model with the given settings: at its first
    /// mode, with both accumulators at zero and the light off, showing the
    /// present time.
    pub fn new(model: WatchModel, settings: WatchSettings) -> (watch: Watch)
        ensures
            watch.model == model,
            watch.settings == settings,
            watch.mode == WatchMode::Home,
            watch.f91w_mode == F91WMode::Time,
            watch.stopwatch == ElapsedTimer::cleared(),
            watch.timer == ElapsedTimer::cleared(),
            watch.light == Backlight::Off,
            watch.clock.last_reading() == 0,
            watch.wf(),
    {
        Watch {
            model,
            mode: WatchMode::Home,
            f91w_mode: F91WMode::Time,
            settings,
            time_manager: TimeManager::new(),
            stopwatch: ElapsedTimer::new(),
            timer: ElapsedTimer::new(),
            light: Backlight::Off,
            clock: MonotonicClock::start(),
        }
    }

    /// Tells whether the stopwatch is what the watch shows.
    pub fn stopwatch_shown(&self) -> (shown: bool)
        ensures
            shown == self.shows_stopwatch(),
    {
        match self.model {
            WatchModel::Standard => match self.mode {
                WatchMode::Stopwatch => true,
                _ => false,
            },
            WatchModel::Minimal => match self.f91w_mode {
                F91WMode::Stopwatch => true,
                _ => false,
            },
        }
    }

    /// Tells whether the timer is what the watch shows.
    pub fn timer_shown(&self) -> (shown: bool)
        ensures
            shown == self.shows_timer(),
    {
        match self.model {
            WatchModel::Standard => match self.mode {
                WatchMode::Timer => true,
                _ => false,
            },
            WatchModel::Minimal => false,
        }
    }

    /// One tick of the polling loop, with the two clocks already read:
    /// `reading` from the wall clock, `now` from the monotonic clock.
    ///
    /// The watch takes the reading as its time, brings a running stopwatch
    /// and a running timer up to date, and puts the light out once it has
    /// been on for the time that the settings give it. It reports
    /// `AlarmFired` where the alarm is on and the reading shows its minute.
    pub fn update_at(&mut self, reading: ClockReading, now: u64) -> (event: TickEvent)
        requires
            reading.wf(),
        ensures
            *final(self) == old(self).ticked(reading, now),
            event == old(self).tick_event(reading),
            final(self).wf(),
    {
        self.time_manager = TimeManager::at(reading);
        self.stopwatch.tick(now);
        self.timer.tick(now);
        self.light.tick(now, self.settings.auto_light_duration);
        if self.settings.alarm_enabled && self.time_manager.check_alarm(&self.settings.alarm_time) {
            TickEvent::AlarmFired
        } else {
            TickEvent::Quiet
        }
    }

    /// One tick of the polling loop: reads both clocks and does what
    /// `update_at` does with what they show. The monotonic clock shows no
    /// less than at its last reading.
    pub fn update(&mut self) -> (event: TickEvent)
        ensures
            exists|reading: ClockReading, now: u64|
                reading.wf() && now >= old(self).clock.last_reading() && *final(self)
                    == #[trigger] old(self).clock_read(now).ticked(reading, now) && event == old(
                    self,
                ).tick_event(reading),
            final(self).wf(),
    {
        let reading = local_time_in(0);
        let now = self.clock.now_ms();
        assert(*self == old(self).clock_read(now));
        let event = self.update_at(reading, now);
        assert(*self == old(self).clock_read(now).ticked(reading, now));
        event
    }

    /// The mode button: the watch shows the next mode of its model. What
    /// runs goes on running.
    pub fn toggle_mode(&mut self)
        ensures
            *final(self) == old(self).mode_advanced(),
    {
        match self.model {
            WatchModel::Standard => {
                self.mode = self.mode.next();
            },
            WatchModel::Minimal => {
                self.f91w_mode = self.f91w_mode.next();
            },
        }
    }

    /// The start/stop button, pressed at `now`.
    pub fn toggle_start_stop_at(&mut self, now: u64)
        ensures
            *final(self) == old(self).start_stop_toggled(now),
    {
        if self.stopwatch_shown() {
            self.stopwatch.toggle(now);
        } else if self.timer_shown() {
            self.timer.toggle(now);
        }
    }

    /// The start/stop button, pressed now: at a reading of the clock that is
    /// no less than its last.
    pub fn toggle_start_stop(&mut self)
        ensures
            exists|now: u64|
                now >= old(self).clock.last_reading() && *final(self) == #[trigger] old(
                    self,
                ).clock_read(now).start_stop_toggled(now),
    {
        let now = self.clock.now_ms();
        assert(*self == old(self).clock_read(now));
        self.toggle_start_stop_at(now);
        assert(*self == old(self).clock_read(now).start_stop_toggled(now));
    }

    /// The reset button: what is shown, stopwatch or timer, stops and is set
    /// to zero. In every other mode nothing happens.
    pub fn reset(&mut self)
        ensures
            *final(self) == old(self).cleared(),
            old(self).shows_stopwatch() ==> final(self).stopwatch.accumulated_ms == 0
                && !final(self).stopwatch.running(),
            old(self).shows_timer() ==> final(self).timer.accumulated_ms == 0
                && !final(self).timer.running(),
    {
        if self.stopwatch_shown() {
            self.stopwatch.reset();
        } else if self.timer_shown() {
            self.timer.reset();
        }
    }

    /// The light button, pressed at `now`.
    pub fn toggle_light_at(&mut self, now: u64)
        ensures
            *final(self) == old(self).light_toggled(now),
    {
        self.light.toggle(now);
    }

    /// The light button, pressed now: at a reading of the clock that is no
    /// less than its last.
    pub fn toggle_light(&mut self)
        ensures
            exists|now: u64|
                now >= old(self).clock.last_reading() && *final(self) == #[trigger] old(
                    self,
                ).clock_read(now).light_toggled(now),
    {
        let now = self.clock.now_ms();
        assert(*self == old(self).clock_read(now));
        self.toggle_light_at(now);
        assert(*self == old(self).clock_read(now).light_toggled(now));
    }

    /// The alarm button, where a newly set alarm is due at `due`.
    pub fn set_alarm_at(&mut self, due: &ClockReading)
        ensures
            old(self).alarm_toggled_to(*final(self), *due),
    {
        self.settings.alarm_enabled = !self.settings.alarm_enabled;
        if self.settings.alarm_enabled {
            self.settings.alarm_time = Some(TimeManager::at(*due).format_hour_minute());
        } else {
            self.settings.alarm_time = None;
        }
    }

    /// The alarm button: switches the alarm off, or switches it on and sets
    /// it to the local time `ALARM_LEAD_MINUTES` from now. The caller is to
    /// store the settings afterwards.
    pub fn set_alarm(&mut self)
        ensures
            exists|due: ClockReading| due.wf() && #[trigger] old(self).alarm_toggled_to(
                *final(self),
                due,
            ),
    {
        let due = local_time_in(ALARM_LEAD_MINUTES);
        self.set_alarm_at(&due);
    }
}

} // verus!
