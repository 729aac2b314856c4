//! The keys of the watch and what each of them asks for.

use vstd::prelude::*;

use crate::time::{local_time_in, ClockReading};
use crate::watch::{TickEvent, Watch, ALARM_LEAD_MINUTES};

verus! {

/// A key as the terminal reports it.
#[derive(Debug, Clone, Copy, PartialEq, Eq, Structural)]
pub enum Key {
    Char(char),
    Esc,
    /// Any key that is neither a character nor escape.
    Other,
}

/// What the owner can ask of the watch.
#[derive(Debug, Clone, Copy, PartialEq, Eq, Structural)]
pub enum Command {
    Quit,
    AdvanceMode,
    ToggleRunStop,
    Reset,
    ToggleLight,
    ToggleAlarm,
}

/// What the polling loop has to do after a key.
#[derive(Debug, Clone, Copy, PartialEq, Eq, Structural)]
pub enum Action {
    /// Go on polling.
    Continue,
    /// Leave the loop.
    Quit,
    /// Store the settings, which have changed, then go on polling.
    SaveSettings,
}

/// The command that a key stands for: `q` or escape to quit, `m` for the
/// mode, `s` for start/stop, `r` for reset, `l` for the light, `a` for the
/// alarm. Every other key stands for none.
pub open spec fn command_of(key: Key) -> Option<Command> {
    match key {
        Key::Esc => Some(Command::Quit),
        Key::Char(c) => if c == 'q' {
            Some(Command::Quit)
        } else if c == 'm' {
            Some(Command::AdvanceMode)
        } else if c == 's' {
            Some(Command::ToggleRunStop)
        } else if c == 'r' {
            Some(Command::Reset)
        } else if c == 'l' {
            Some(Command::ToggleLight)
        } else if c == 'a' {
            Some(Command::ToggleAlarm)
        } else {
            None
        },
        Key::Other => None,
    }
}

/// What the loop has to do after `command`.
pub open spec fn action_of(command: Option<Command>) -> Action {
    match command {
        Some(Command::Quit) => Action::Quit,
        Some(Command::ToggleAlarm) => Action::SaveSettings,
        _ => Action::Continue,
    }
}

/// `after` is what `command` makes of the watch `before`, where the
/// monotonic clock shows `now` and a newly set alarm is due at `due`.
pub open spec fn applied(
    before: Watch,
    after: Watch,
    command: Option<Command>,
    now: u64,
    due: ClockReading,
) -> bool {
    match command {
        None => after == before,
        Some(Command::Quit) => after == before,
        Some(Command::AdvanceMode) => after == before.mode_advanced(),
        Some(Command::ToggleRunStop) => after == before.start_stop_toggled(now),
        Some(Command::Reset) => after == before.cleared(),
        Some(Command::ToggleLight) => after == before.light_toggled(now),
        Some(Command::ToggleAlarm) => before.alarm_toggled_to(after, due),
    }
}

/// Computes `command_of`.
pub fn command_for_key(key: Key) -> (command: Option<Command>)
    ensures
        command == command_of(key),
{
    match key {
        Key::Esc => Some(Command::Quit),
        Key::Char(c) => {
            if c == 'q' {
                Some(Command::Quit)
            } else if c == 'm' {
                Some(Command::AdvanceMode)
            } else if c == 's' {
                Some(Command::ToggleRunStop)
            } else if c == 'r' {
                Some(Command::Reset)
            } else if c == 'l' {
                Some(Command::ToggleLight)
            } else if c == 'a' {
                Some(Command::ToggleAlarm)
            } else {
                None
            }
        },
        Key::Other => None,
    }
}

/// Does to the watch what `key` asks for, with the clocks already read: the
/// monotonic clock shows `now`, and a newly set alarm is due at `due`. At
/// most one command is carried out. A key that stands for no command, and a
/// command that means nothing in the mode that is shown, change nothing.
pub fn handle_key_event_at(key: Key, watch: &mut Watch, now: u64, due: &ClockReading) -> (action:
    Action)
    ensures
        applied(*old(watch), *final(watch), command_of(key), now, *due),
        action == action_of(command_of(key)),
{
    match command_for_key(key) {
        Some(Command::Quit) => Action::Quit,
        Some(Command::AdvanceMode) => {
            watch.toggle_mode();
            Action::Continue
        },
        Some(Command::ToggleRunStop) => {
            watch.toggle_start_stop_at(now);
            Action::Continue
        },
        Some(Command::Reset) => {
            watch.reset();
            Action::Continue
        },
        Some(Command::ToggleLight) => {
            watch.toggle_light_at(now);
            Action::Continue
        },
        Some(Command::ToggleAlarm) => {
            watch.set_alarm_at(due);
            Action::SaveSettings
        },
        None => Action::Continue,
    }
}

/// Does to the watch what `key` asks for, now: at a reading of the clock of
/// the watch that is no less than its last.
pub fn handle_key_event(key: Key, watch: &mut Watch) -> (action: Action)
    ensures
        exists|now: u64, due: ClockReading|
            due.wf() && now >= old(watch).clock.last_reading() && #[trigger] applied(
                old(watch).clock_read(now),
                *final(watch),
                command_of(key),
                now,
                due,
            ),
        action == action_of(command_of(key)),
{
    let now = watch.clock.now_ms();
    assert(*watch == old(watch).clock_read(now));
    let due = local_time_in(ALARM_LEAD_MINUTES);
    let action = handle_key_event_at(key, watch, now, &due);
    assert(applied(old(watch).clock_read(now), *watch, command_of(key), now, due));
    action
}

/// How long the loop waits for a key before it ticks, in milliseconds.
pub const POLL_INTERVAL_MS: u64 = 100;

/// What one round of the polling loop leaves to its caller.
#[derive(Debug, Clone, Copy, PartialEq, Eq)]
pub struct Step {
    pub action: Action,
    pub event: TickEvent,
}

/// The command of the key that came in during a round, if one came in.
pub open spec fn pressed(key: Option<Key>) -> Option<Command> {
    match key {
        Some(key) => command_of(key),
        None => None,
    }
}

/// `after` and `step` are what one round of the loop makes of the watch
/// `before`: the command of the key, if there is one, and then one tick. On
/// the command to quit the round ends at once, without the tick.
pub open spec fn stepped(
    before: Watch,
    after: Watch,
    step: Step,
    key: Option<Key>,
    reading: ClockReading,
    now: u64,
    due: ClockReading,
) -> bool {
    &&& step.action == action_of(pressed(key))
    &&& if pressed(key) == Some(Command::Quit) {
        after == before && step.event == TickEvent::Quiet
    } else {
        exists|keyed: Watch| #[trigger]
            applied(before, keyed, pressed(key), now, due) && after == keyed.ticked(reading, now)
                && step.event == keyed.tick_event(reading)
    }
}

/// One round of the polling loop, with the clocks already read: carries out
/// the command of `key`, if a key came in, and then ticks.
pub fn step_at(
    watch: &mut Watch,
    key: Option<Key>,
    reading: ClockReading,
    now: u64,
    due: &ClockReading,
) -> (step: Step)
    requires
        reading.wf(),
    ensures
        stepped(*old(watch), *final(watch), step, key, reading, now, *due),
        step.action != Action::Quit ==> final(watch).wf(),
        old(watch).wf() ==> final(watch).wf(),
{
    let action = match key {
        Some(key) => handle_key_event_at(key, watch, now, due),
        None => Action::Continue,
    };
    match action {
        Action::Quit => Step { action, event: TickEvent::Quiet },
        _ => {
            let ghost keyed = *watch;
            let event = watch.update_at(reading, now);
            assert(applied(*old(watch), keyed, pressed(key), now, *due));
            Step { action, event }
        },
    }
}

/// One round of the polling loop, now: at a reading of the clock of the
/// watch that is no less than its last.
pub fn step(watch: &mut Watch, key: Option<Key>) -> (step: Step)
    ensures
        exists|reading: ClockReading, now: u64, due: ClockReading|
            reading.wf() && due.wf() && now >= old(watch).clock.last_reading() && #[trigger] stepped(
                old(watch).clock_read(now),
                *final(watch),
                step,
                key,
                reading,
                now,
                due,
            ),
{
    let now = watch.clock.now_ms();
    assert(*watch == old(watch).clock_read(now));
    let due = local_time_in(ALARM_LEAD_MINUTES);
    let reading = local_time_in(0);
    let step = step_at(watch, key, reading, now, &due);
    assert(stepped(old(watch).clock_read(now), *watch, step, key, reading, now, due));
    step
}

} // verus!
