//! Time that runs: the accumulator behind the stopwatch and the timer, and
//! the backlight that goes out by itself.
//!
//! Instants are milliseconds on a monotonic clock. Every elapsed time is the
//! distance from an anchor to a reading of that clock, never a count of
//! ticks, so that reading the clock twice at one instant changes nothing.

use vstd::prelude::*;

verus! {

/// The milliseconds from `anchor` to `now`; none where `now` lies before
/// `anchor`.
pub open spec fn elapsed_since(anchor: u64, now: u64) -> int {
    if now >= anchor {
        now - anchor
    } else {
        0
    }
}

/// `n`, or the largest `u64` where `n` is larger.
pub open spec fn capped(n: int) -> u64 {
    if n > u64::MAX {
        u64::MAX
    } else {
        n as u64
    }
}

/// Computes `elapsed_since`.
pub fn elapsed_ms(anchor: u64, now: u64) -> (elapsed: u64)
    ensures
        elapsed == elapsed_since(anchor, now),
{
    now.saturating_sub(anchor)
}

/// Whether an accumulator stands or runs.
#[derive(Debug, Clone, Copy, PartialEq, Eq, Structural)]
pub enum RunState {
    Idle,
    /// Running since `anchor_ms`, with `carried_ms` on the accumulator when
    /// the run began.
    Running { anchor_ms: u64, carried_ms: u64 },
}

/// An accumulator of elapsed time that can be started, stopped and cleared.
///
/// `accumulated_ms` is the value to show: while the accumulator runs, each
/// tick brings it up to date.
#[derive(Debug, Clone, Copy, PartialEq, Eq, Structural)]
pub struct ElapsedTimer {
    pub accumulated_ms: u64,
    pub state: RunState,
}

impl ElapsedTimer {
    pub open spec fn running(&self) -> bool {
        self.state is Running
    }

    /// The instant at which the present run began.
    pub open spec fn anchor(&self) -> Option<u64> {
        match self.state {
            RunState::Idle => None,
            RunState::Running { anchor_ms, .. } => Some(anchor_ms),
        }
    }

    /// The elapsed time at `now`: what was carried into the present run and
    /// the length of that run so far, or the stored value while it stands.
    pub open spec fn live_ms(&self, now: u64) -> u64 {
        match self.state {
            RunState::Idle => self.accumulated_ms,
            RunState::Running { anchor_ms, carried_ms } => capped(
                carried_ms + elapsed_since(anchor_ms, now),
            ),
        }
    }

    /// The accumulator after a tick at `now`.
    pub open spec fn ticked(self, now: u64) -> ElapsedTimer {
        ElapsedTimer { accumulated_ms: self.live_ms(now), state: self.state }
    }

    /// The accumulator after start/stop was pressed at `now`: started where
    /// it stood, stopped with its value frozen where it ran.
    pub open spec fn toggled(self, now: u64) -> ElapsedTimer {
        match self.state {
            RunState::Idle => ElapsedTimer {
                accumulated_ms: self.accumulated_ms,
                state: RunState::Running { anchor_ms: now, carried_ms: self.accumulated_ms },
            },
            RunState::Running { .. } => ElapsedTimer {
                accumulated_ms: self.live_ms(now),
                state: RunState::Idle,
            },
        }
    }

    /// The accumulator at zero, standing.
    pub open spec fn cleared() -> ElapsedTimer {
        ElapsedTimer { accumulated_ms: 0, state: RunState::Idle }
    }

    /// An accumulator at zero, standing.
    pub fn new() -> (timer: Self)
        ensures
            timer == Self::cleared(),
    {
        ElapsedTimer { accumulated_ms: 0, state: RunState::Idle }
    }

    pub fn is_running(&self) -> (running: bool)
        ensures
            running == self.running(),
    {
        match self.state {
            RunState::Idle => false,
            RunState::Running { .. } => true,
        }
    }

    /// Computes `live_ms`.
    pub fn live(&self, now: u64) -> (live: u64)
        ensures
            live == self.live_ms(now),
    {
        match self.state {
            RunState::Idle => self.accumulated_ms,
            RunState::Running { anchor_ms, carried_ms } => carried_ms.saturating_add(
                elapsed_ms(anchor_ms, now),
            ),
        }
    }

    /// Brings the value up to date while the accumulator runs.
    pub fn tick(&mut self, now: u64)
        ensures
            *final(self) == old(self).ticked(now),
    {
        self.accumulated_ms = self.live(now);
    }

    /// Starts the accumulator where it stands, stops it where it runs.
    pub fn toggle(&mut self, now: u64)
        ensures
            *final(self) == old(self).toggled(now),
    {
        match self.state {
            RunState::Idle => {
                self.state = RunState::Running { anchor_ms: now, carried_ms: self.accumulated_ms };
            },
            RunState::Running { .. } => {
                self.accumulated_ms = self.live(now);
                self.state = RunState::Idle;
            },
        }
    }

    /// Stops the accumulator and sets it to zero.
    pub fn reset(&mut self)
        ensures
            *final(self) == Self::cleared(),
            final(self).accumulated_ms == 0,
            !final(self).running(),
    {
        self.accumulated_ms = 0;
        self.state = RunState::Idle;
    }
}

/// A tick shows the state of the clock and keeps no count of its own: after
/// any earlier tick, a tick at `now` leaves what a single tick at `now`
/// leaves. Ticking twice at one instant is ticking once.
pub proof fn lemma_tick_depends_on_last_reading(timer: ElapsedTimer, earlier: u64, now: u64)
    ensures
        timer.ticked(earlier).ticked(now) == timer.ticked(now),
        timer.ticked(now).ticked(now) == timer.ticked(now),
        timer.ticked(now).state == timer.state,
{
}

/// Started at one reading of the clock and stopped at the next, with no tick
/// between, a standing accumulator has gained the distance between the two
/// readings and nothing else. It never loses what it held, and it gains
/// nothing where the two readings are the same.
pub proof fn lemma_start_then_stop(timer: ElapsedTimer, started: u64, stopped: u64)
    requires
        !timer.running(),
    ensures
        timer.toggled(started).running(),
        timer.toggled(started).anchor() == Some(started),
        timer.toggled(started).accumulated_ms == timer.accumulated_ms,
        !timer.toggled(started).toggled(stopped).running(),
        timer.toggled(started).toggled(stopped).anchor() is None,
        timer.toggled(started).toggled(stopped).accumulated_ms == capped(
            timer.accumulated_ms + elapsed_since(started, stopped),
        ),
        timer.toggled(started).toggled(stopped).accumulated_ms >= timer.accumulated_ms,
        timer.accumulated_ms == 0 ==> timer.toggled(started).toggled(stopped).accumulated_ms
            == elapsed_since(started, stopped),
        stopped <= started ==> timer.toggled(started).toggled(stopped).accumulated_ms
            == timer.accumulated_ms,
{
}

/// Ticks between start and stop change nothing of what the stop freezes.
pub proof fn lemma_stop_after_tick(timer: ElapsedTimer, ticked_at: u64, stopped: u64)
    requires
        timer.running(),
    ensures
        timer.ticked(ticked_at).toggled(stopped) == timer.toggled(stopped),
{
}

/// An accumulator has an anchor exactly while it runs.
pub proof fn lemma_anchor_iff_running(timer: ElapsedTimer)
    ensures
        timer.anchor() is Some <==> timer.running(),
{
}

/// The backlight: off, or on since an instant.
#[derive(Debug, Clone, Copy, PartialEq, Eq, Structural)]
pub enum Backlight {
    Off,
    On { anchor_ms: u64 },
}

impl Backlight {
    pub open spec fn on(&self) -> bool {
        self is On
    }

    /// The instant at which the light went on.
    pub open spec fn anchor(&self) -> Option<u64> {
        match *self {
            Backlight::Off => None,
            Backlight::On { anchor_ms } => Some(anchor_ms),
        }
    }

    /// The light has been on for `duration_s` whole seconds or more at `now`.
    pub open spec fn expired(&self, now: u64, duration_s: u64) -> bool {
        *self matches Backlight::On { anchor_ms } && elapsed_since(anchor_ms, now) / 1000
            >= duration_s
    }

    /// The light after its button was pressed at `now`.
    pub open spec fn toggled(self, now: u64) -> Backlight {
        match self {
            Backlight::Off => Backlight::On { anchor_ms: now },
            Backlight::On { .. } => Backlight::Off,
        }
    }

    /// The light after a tick at `now`: out once it has been on for
    /// `duration_s` seconds, else as it was.
    pub open spec fn ticked(self, now: u64, duration_s: u64) -> Backlight {
        if self.expired(now, duration_s) {
            Backlight::Off
        } else {
            self
        }
    }

    /// The light after one tick at each of `readings`, in their order.
    pub open spec fn ticked_through(self, readings: Seq<u64>, duration_s: u64) -> Backlight
        decreases readings.len(),
    {
        if readings.len() == 0 {
            self
        } else {
            self.ticked_through(readings.drop_last(), duration_s).ticked(
                readings.last(),
                duration_s,
            )
        }
    }

    pub fn is_on(&self) -> (on: bool)
        ensures
            on == self.on(),
    {
        match self {
            Backlight::Off => false,
            Backlight::On { .. } => true,
        }
    }

    /// Switches the light on where it is off, off where it is on.
    pub fn toggle(&mut self, now: u64)
        ensures
            *final(self) == old(self).toggled(now),
    {
        match self {
            Backlight::Off => {
                *self = Backlight::On { anchor_ms: now };
            },
            Backlight::On { .. } => {
                *self = Backlight::Off;
            },
        }
    }

    /// Puts the light out once it has been on for `duration_s` seconds.
    pub fn tick(&mut self, now: u64, duration_s: u64)
        ensures
            *final(self) == old(self).ticked(now, duration_s),
    {
        match self {
            Backlight::Off => {},
            Backlight::On { anchor_ms } => {
                if elapsed_ms(*anchor_ms, now) / 1000 >= duration_s {
                    *self = Backlight::Off;
                }
            },
        }
    }
}

/// The light has an anchor exactly while it is on.
pub proof fn lemma_light_anchor_iff_on(light: Backlight)
    ensures
        light.anchor() is Some <==> light.on(),
{
}

/// A light that is off stays off through every tick.
pub proof fn lemma_tick_keeps_light_off(light: Backlight, now: u64, duration_s: u64)
    requires
        !light.on(),
    ensures
        light.ticked(now, duration_s) == Backlight::Off,
{
}

/// Switched on and then off by hand, the light is off with no anchor left,
/// whatever time has passed between, and a later tick does not bring it back.
pub proof fn lemma_manual_off_is_final(
    light: Backlight,
    on_at: u64,
    off_at: u64,
    later: u64,
    duration_s: u64,
)
    requires
        !light.on(),
    ensures
        light.toggled(on_at).on(),
        light.toggled(on_at).toggled(off_at) == Backlight::Off,
        light.toggled(on_at).toggled(off_at).anchor() is None,
        light.toggled(on_at).toggled(off_at).ticked(later, duration_s) == Backlight::Off,
{
}

/// A tick before the light's time is up leaves the light as it is; the first
/// tick at or after that time puts it out.
pub proof fn lemma_light_goes_out(light: Backlight, on_at: u64, now: u64, duration_s: u64)
    requires
        !light.on(),
    ensures
        elapsed_since(on_at, now) / 1000 < duration_s ==> light.toggled(on_at).ticked(
            now,
            duration_s,
        ) == light.toggled(on_at),
        elapsed_since(on_at, now) / 1000 >= duration_s ==> light.toggled(on_at).ticked(
            now,
            duration_s,
        ) == Backlight::Off,
        now - on_at >= duration_s * 1000 ==> !light.toggled(on_at).ticked(now, duration_s).on(),
{
    if now - on_at >= duration_s * 1000 {
        assert(elapsed_since(on_at, now) / 1000 >= duration_s) by (nonlinear_arith)
            requires
                elapsed_since(on_at, now) >= duration_s * 1000,
        ;
    }
}

/// Ticks do nothing to the light but put it out.
pub proof fn lemma_ticks_only_put_out(light: Backlight, readings: Seq<u64>, duration_s: u64)
    ensures
        light.ticked_through(readings, duration_s) == light || light.ticked_through(
            readings,
            duration_s,
        ) == Backlight::Off,
    decreases readings.len(),
{
    if readings.len() > 0 {
        lemma_ticks_only_put_out(light, readings.drop_last(), duration_s);
    }
}

/// Switched on at `on_at` and then ticked any number of times, the light is
/// out after a tick that comes `duration_s` seconds or more after `on_at`,
/// whatever the ticks before it were.
pub proof fn lemma_light_out_when_time_is_up(
    light: Backlight,
    on_at: u64,
    readings: Seq<u64>,
    duration_s: u64,
)
    requires
        !light.on(),
        readings.len() > 0,
        readings.last() - on_at >= duration_s * 1000,
    ensures
        light.toggled(on_at).ticked_through(readings, duration_s) == Backlight::Off,
{
    let lit = light.toggled(on_at);
    lemma_ticks_only_put_out(lit, readings.drop_last(), duration_s);
    assert(elapsed_since(on_at, readings.last()) / 1000 >= duration_s) by (nonlinear_arith)
        requires
            elapsed_since(on_at, readings.last()) >= duration_s * 1000,
    ;
}

} // verus!
