use casiotoy::clock::{cap_millis, MonotonicClock};
use casiotoy::elapsed::{elapsed_ms, Backlight, ElapsedTimer, RunState};
use casiotoy::settings::WatchSettings;
use casiotoy::time::ClockReading;
use casiotoy::watch::{F91WMode, TickEvent, Watch, WatchMode, WatchModel, ALARM_LEAD_MINUTES};
use std::time::{Duration, Instant};

fn reading(hour: u32, minute: u32, second: u32) -> ClockReading {
    ClockReading::new(2024, 3, 9, 5, hour, minute, second).unwrap()
}

fn standard() -> Watch {
    Watch::new(WatchModel::Standard, WatchSettings::default())
}

fn minimal() -> Watch {
    Watch::new(WatchModel::Minimal, WatchSettings::default())
}

fn in_mode(mode: WatchMode) -> Watch {
    let mut watch = standard();
    watch.mode = mode;
    watch
}

fn minimal_stopwatch() -> Watch {
    let mut watch = minimal();
    watch.f91w_mode = F91WMode::Stopwatch;
    watch
}

#[test]
fn a_new_watch_is_at_rest() {
    let watch = standard();
    assert_eq!(watch.model, WatchModel::Standard);
    assert_eq!(watch.mode, WatchMode::Home);
    assert_eq!(watch.f91w_mode, F91WMode::Time);
    assert_eq!(watch.stopwatch, ElapsedTimer { accumulated_ms: 0, state: RunState::Idle });
    assert_eq!(watch.timer, ElapsedTimer { accumulated_ms: 0, state: RunState::Idle });
    assert_eq!(watch.light, Backlight::Off);
    assert!(watch.time_manager.current_time.is_valid());
    assert!(!watch.settings.alarm_enabled);
    assert_eq!(watch.settings.alarm_time, None);
}

#[test]
fn a_new_watch_keeps_the_settings_it_was_given() {
    let settings = WatchSettings {
        time_format_24h: true,
        date_format_us: false,
        auto_light_duration: 7,
        alarm_enabled: true,
        alarm_time: None,
    };
    let watch = Watch::new(WatchModel::Minimal, settings);
    assert_eq!(watch.model, WatchModel::Minimal);
    assert!(watch.settings.time_format_24h);
    assert!(!watch.settings.date_format_us);
    assert_eq!(watch.settings.auto_light_duration, 7);
    assert!(watch.settings.alarm_enabled);
    assert_eq!(watch.settings.alarm_time, None);
}

#[test]
fn standard_modes_follow_in_order() {
    let mut watch = standard();
    let mut seen = vec![watch.mode];
    for _ in 0..5 {
        watch.toggle_mode();
        seen.push(watch.mode);
    }
    assert_eq!(
        seen,
        vec![
            WatchMode::Home,
            WatchMode::WorldTime,
            WatchMode::Alarm,
            WatchMode::Timer,
            WatchMode::Stopwatch,
            WatchMode::Home
        ]
    );
    assert_eq!(watch.f91w_mode, F91WMode::Time);
}

#[test]
fn minimal_modes_follow_in_order() {
    let mut watch = minimal();
    let mut seen = vec![watch.f91w_mode];
    for _ in 0..3 {
        watch.toggle_mode();
        seen.push(watch.f91w_mode);
    }
    assert_eq!(
        seen,
        vec![F91WMode::Time, F91WMode::Alarm, F91WMode::Stopwatch, F91WMode::Time]
    );
    assert_eq!(watch.mode, WatchMode::Home);
}

#[test]
fn standard_mode_returns_after_exactly_five_presses() {
    for start in [
        WatchMode::Home,
        WatchMode::WorldTime,
        WatchMode::Alarm,
        WatchMode::Timer,
        WatchMode::Stopwatch,
    ] {
        let mut watch = in_mode(start);
        for presses in 1..=20 {
            watch.toggle_mode();
            assert_eq!(watch.mode == start, presses % 5 == 0);
        }
    }
}

#[test]
fn minimal_mode_returns_after_exactly_three_presses() {
    for start in [F91WMode::Time, F91WMode::Alarm, F91WMode::Stopwatch] {
        let mut watch = minimal();
        watch.f91w_mode = start;
        for presses in 1..=12 {
            watch.toggle_mode();
            assert_eq!(watch.f91w_mode == start, presses % 3 == 0);
        }
    }
}

#[test]
fn next_mode_of_each_mode() {
    assert_eq!(WatchMode::Home.next(), WatchMode::WorldTime);
    assert_eq!(WatchMode::WorldTime.next(), WatchMode::Alarm);
    assert_eq!(WatchMode::Alarm.next(), WatchMode::Timer);
    assert_eq!(WatchMode::Timer.next(), WatchMode::Stopwatch);
    assert_eq!(WatchMode::Stopwatch.next(), WatchMode::Home);
    assert_eq!(F91WMode::Time.next(), F91WMode::Alarm);
    assert_eq!(F91WMode::Alarm.next(), F91WMode::Stopwatch);
    assert_eq!(F91WMode::Stopwatch.next(), F91WMode::Time);
}

#[test]
fn mode_button_leaves_a_running_stopwatch_running() {
    let mut watch = in_mode(WatchMode::Stopwatch);
    watch.toggle_start_stop_at(1_000);
    watch.toggle_mode();
    assert_eq!(watch.mode, WatchMode::Home);
    assert!(watch.stopwatch.is_running());
    watch.update_at(reading(10, 0, 0), 4_500);
    assert_eq!(watch.stopwatch.accumulated_ms, 3_500);
    assert_eq!(
        watch.stopwatch.state,
        RunState::Running { anchor_ms: 1_000, carried_ms: 0 }
    );
}

#[test]
fn shown_tells_what_start_stop_goes_to() {
    assert!(in_mode(WatchMode::Stopwatch).stopwatch_shown());
    assert!(!in_mode(WatchMode::Stopwatch).timer_shown());
    assert!(in_mode(WatchMode::Timer).timer_shown());
    assert!(!in_mode(WatchMode::Timer).stopwatch_shown());
    for mode in [WatchMode::Home, WatchMode::WorldTime, WatchMode::Alarm] {
        assert!(!in_mode(mode).stopwatch_shown());
        assert!(!in_mode(mode).timer_shown());
    }
    assert!(minimal_stopwatch().stopwatch_shown());
    assert!(!minimal_stopwatch().timer_shown());
    assert!(!minimal().stopwatch_shown());
    let mut odd = minimal();
    odd.mode = WatchMode::Timer;
    assert!(!odd.timer_shown());
    odd.mode = WatchMode::Stopwatch;
    assert!(!odd.stopwatch_shown());
}

#[test]
fn start_then_stop_at_one_instant_gains_nothing() {
    let mut watch = in_mode(WatchMode::Stopwatch);
    watch.toggle_start_stop_at(5_000);
    assert!(watch.stopwatch.is_running());
    assert_eq!(watch.stopwatch.accumulated_ms, 0);
    watch.toggle_start_stop_at(5_000);
    assert!(!watch.stopwatch.is_running());
    assert_eq!(watch.stopwatch.accumulated_ms, 0);
    assert_eq!(watch.stopwatch.state, RunState::Idle);
}

#[test]
fn start_then_stop_gains_the_time_between() {
    let mut watch = in_mode(WatchMode::Timer);
    watch.toggle_start_stop_at(5_000);
    watch.toggle_start_stop_at(5_003);
    assert_eq!(watch.timer, ElapsedTimer { accumulated_ms: 3, state: RunState::Idle });
    assert_eq!(watch.stopwatch, ElapsedTimer { accumulated_ms: 0, state: RunState::Idle });
}

#[test]
fn start_then_stop_on_the_real_clock_stays_near_zero() {
    for mut watch in [in_mode(WatchMode::Stopwatch), minimal_stopwatch()] {
        watch.toggle_start_stop();
        assert!(watch.stopwatch.is_running());
        watch.toggle_start_stop();
        assert!(!watch.stopwatch.is_running());
        assert!(watch.stopwatch.accumulated_ms < 1_000);
    }
    let mut watch = in_mode(WatchMode::Timer);
    watch.toggle_start_stop();
    watch.toggle_start_stop();
    assert!(!watch.timer.is_running());
    assert!(watch.timer.accumulated_ms < 1_000);
}

#[test]
fn stopwatch_keeps_its_time_over_a_restart() {
    let mut watch = in_mode(WatchMode::Stopwatch);
    watch.toggle_start_stop_at(100);
    watch.update_at(reading(10, 0, 0), 2_600);
    assert_eq!(watch.stopwatch.accumulated_ms, 2_500);
    watch.toggle_start_stop_at(3_100);
    assert_eq!(watch.stopwatch.accumulated_ms, 3_000);
    watch.update_at(reading(10, 0, 1), 4_000);
    assert_eq!(watch.stopwatch.accumulated_ms, 3_000);
    watch.toggle_start_stop_at(5_000);
    assert_eq!(watch.stopwatch.accumulated_ms, 3_000);
    watch.update_at(reading(10, 0, 2), 5_250);
    assert_eq!(watch.stopwatch.accumulated_ms, 3_250);
    watch.toggle_start_stop_at(5_500);
    assert_eq!(watch.stopwatch, ElapsedTimer { accumulated_ms: 3_500, state: RunState::Idle });
}

#[test]
fn rapid_start_and_stop_loses_nothing() {
    let mut watch = minimal_stopwatch();
    let mut now = 0;
    for _ in 0..100 {
        watch.toggle_start_stop_at(now);
        now += 7;
        watch.toggle_start_stop_at(now);
        now += 13;
    }
    assert_eq!(watch.stopwatch.accumulated_ms, 700);
    assert!(!watch.stopwatch.is_running());
}

#[test]
fn a_tick_counts_from_the_anchor_not_by_ticks() {
    let mut once = in_mode(WatchMode::Stopwatch);
    once.toggle_start_stop_at(1_000);
    once.update_at(reading(10, 0, 0), 9_000);
    let mut often = in_mode(WatchMode::Stopwatch);
    often.toggle_start_stop_at(1_000);
    for now in [1_000, 1_000, 1_001, 4_000, 4_000, 8_999, 9_000, 9_000, 9_000] {
        often.update_at(reading(10, 0, 0), now);
    }
    assert_eq!(once.stopwatch, often.stopwatch);
    assert_eq!(often.stopwatch.accumulated_ms, 8_000);
}

#[test]
fn a_clock_that_reads_earlier_than_the_anchor_adds_nothing() {
    let mut watch = in_mode(WatchMode::Stopwatch);
    watch.stopwatch.accumulated_ms = 40;
    watch.toggle_start_stop_at(1_000);
    watch.update_at(reading(10, 0, 0), 900);
    assert_eq!(watch.stopwatch.accumulated_ms, 40);
    watch.toggle_start_stop_at(10);
    assert_eq!(watch.stopwatch, ElapsedTimer { accumulated_ms: 40, state: RunState::Idle });
}

#[test]
fn elapsed_time_stops_at_the_largest_number() {
    let mut timer = ElapsedTimer { accumulated_ms: u64::MAX - 5, state: RunState::Idle };
    timer.toggle(0);
    timer.tick(5);
    assert_eq!(timer.accumulated_ms, u64::MAX);
    timer.tick(6);
    assert_eq!(timer.accumulated_ms, u64::MAX);
    timer.toggle(u64::MAX);
    assert_eq!(timer, ElapsedTimer { accumulated_ms: u64::MAX, state: RunState::Idle });
}

#[test]
fn elapsed_ms_is_the_distance_or_zero() {
    assert_eq!(elapsed_ms(10, 25), 15);
    assert_eq!(elapsed_ms(25, 25), 0);
    assert_eq!(elapsed_ms(26, 25), 0);
    assert_eq!(elapsed_ms(0, u64::MAX), u64::MAX);
    assert_eq!(elapsed_ms(u64::MAX, 0), 0);
}

#[test]
fn live_value_of_a_timer() {
    let standing = ElapsedTimer { accumulated_ms: 77, state: RunState::Idle };
    assert_eq!(standing.live(1_000_000), 77);
    let running = ElapsedTimer {
        accumulated_ms: 77,
        state: RunState::Running { anchor_ms: 500, carried_ms: 70 },
    };
    assert_eq!(running.live(500), 70);
    assert_eq!(running.live(530), 100);
    assert_eq!(running.live(400), 70);
    assert!(running.is_running());
    assert!(!standing.is_running());
}

#[test]
fn start_stop_means_nothing_outside_stopwatch_and_timer() {
    for mode in [WatchMode::Home, WatchMode::WorldTime, WatchMode::Alarm] {
        let mut watch = in_mode(mode);
        watch.toggle_start_stop_at(1_000);
        watch.toggle_start_stop();
        assert_eq!(watch.stopwatch, ElapsedTimer::new());
        assert_eq!(watch.timer, ElapsedTimer::new());
        assert_eq!(watch.mode, mode);
    }
    for mode in [F91WMode::Time, F91WMode::Alarm] {
        let mut watch = minimal();
        watch.f91w_mode = mode;
        watch.toggle_start_stop_at(1_000);
        assert_eq!(watch.stopwatch, ElapsedTimer::new());
        assert_eq!(watch.timer, ElapsedTimer::new());
    }
}

#[test]
fn the_simpler_watch_has_no_timer_to_start() {
    let mut watch = minimal_stopwatch();
    watch.mode = WatchMode::Timer;
    watch.toggle_start_stop_at(1_000);
    assert!(watch.stopwatch.is_running());
    assert!(!watch.timer.is_running());
}

#[test]
fn stopwatch_and_timer_run_apart() {
    let mut watch = in_mode(WatchMode::Timer);
    watch.toggle_start_stop_at(1_000);
    watch.toggle_mode();
    assert_eq!(watch.mode, WatchMode::Stopwatch);
    watch.toggle_start_stop_at(2_000);
    watch.update_at(reading(10, 0, 0), 2_500);
    assert_eq!(watch.timer.accumulated_ms, 1_500);
    assert_eq!(watch.stopwatch.accumulated_ms, 500);
    watch.toggle_start_stop_at(3_000);
    assert!(!watch.stopwatch.is_running());
    assert!(watch.timer.is_running());
    watch.update_at(reading(10, 0, 1), 4_000);
    assert_eq!(watch.stopwatch.accumulated_ms, 1_000);
    assert_eq!(watch.timer.accumulated_ms, 3_000);
}

#[test]
fn reset_stops_and_clears_a_running_stopwatch() {
    for mut watch in [in_mode(WatchMode::Stopwatch), minimal_stopwatch()] {
        watch.toggle_start_stop_at(1_000);
        watch.update_at(reading(10, 0, 0), 61_000);
        assert_eq!(watch.stopwatch.accumulated_ms, 60_000);
        watch.reset();
        assert_eq!(watch.stopwatch.accumulated_ms, 0);
        assert!(!watch.stopwatch.is_running());
        assert_eq!(watch.stopwatch.state, RunState::Idle);
        watch.update_at(reading(10, 0, 1), 99_000);
        assert_eq!(watch.stopwatch.accumulated_ms, 0);
    }
}

#[test]
fn reset_clears_a_standing_stopwatch() {
    let mut watch = in_mode(WatchMode::Stopwatch);
    watch.stopwatch = ElapsedTimer { accumulated_ms: 123_456, state: RunState::Idle };
    watch.reset();
    assert_eq!(watch.stopwatch, ElapsedTimer { accumulated_ms: 0, state: RunState::Idle });
}

#[test]
fn reset_stops_and_clears_the_timer() {
    let mut watch = in_mode(WatchMode::Timer);
    watch.stopwatch = ElapsedTimer { accumulated_ms: 9, state: RunState::Idle };
    watch.toggle_start_stop_at(10);
    watch.update_at(reading(10, 0, 0), 5_010);
    watch.reset();
    assert_eq!(watch.timer, ElapsedTimer { accumulated_ms: 0, state: RunState::Idle });
    assert_eq!(watch.stopwatch, ElapsedTimer { accumulated_ms: 9, state: RunState::Idle });
    watch.timer = ElapsedTimer { accumulated_ms: 777, state: RunState::Idle };
    watch.reset();
    assert_eq!(watch.timer, ElapsedTimer { accumulated_ms: 0, state: RunState::Idle });
}

#[test]
fn reset_means_nothing_in_other_modes() {
    for mode in [WatchMode::Home, WatchMode::WorldTime, WatchMode::Alarm] {
        let mut watch = in_mode(mode);
        watch.stopwatch = ElapsedTimer {
            accumulated_ms: 5,
            state: RunState::Running { anchor_ms: 1, carried_ms: 2 },
        };
        watch.timer = ElapsedTimer { accumulated_ms: 6, state: RunState::Idle };
        watch.reset();
        assert_eq!(watch.stopwatch.accumulated_ms, 5);
        assert!(watch.stopwatch.is_running());
        assert_eq!(watch.timer.accumulated_ms, 6);
    }
}

#[test]
fn timer_reset_on_its_own() {
    let mut timer = ElapsedTimer {
        accumulated_ms: 5,
        state: RunState::Running { anchor_ms: 1, carried_ms: 2 },
    };
    timer.reset();
    assert_eq!(timer, ElapsedTimer::new());
}

#[test]
fn light_goes_on_and_off_by_hand() {
    let mut watch = standard();
    watch.toggle_light_at(2_000);
    assert_eq!(watch.light, Backlight::On { anchor_ms: 2_000 });
    assert!(watch.light.is_on());
    watch.toggle_light_at(2_100);
    assert_eq!(watch.light, Backlight::Off);
    assert!(!watch.light.is_on());
}

#[test]
fn light_switched_off_by_hand_stays_off() {
    let mut watch = standard();
    watch.toggle_light_at(2_000);
    watch.toggle_light_at(2_400);
    for now in [2_400, 2_999, 3_000, 3_001, 10_000, u64::MAX] {
        watch.update_at(reading(10, 0, 0), now);
        assert_eq!(watch.light, Backlight::Off);
    }
}

#[test]
fn light_goes_out_after_its_time() {
    let mut watch = standard();
    assert_eq!(watch.settings.auto_light_duration, 1);
    watch.toggle_light_at(2_000);
    for now in [2_000, 2_100, 2_500, 2_999] {
        watch.update_at(reading(10, 0, 0), now);
        assert_eq!(watch.light, Backlight::On { anchor_ms: 2_000 });
    }
    watch.update_at(reading(10, 0, 1), 3_000);
    assert_eq!(watch.light, Backlight::Off);
    watch.update_at(reading(10, 0, 1), 3_001);
    assert_eq!(watch.light, Backlight::Off);
}

#[test]
fn light_goes_out_on_the_first_tick_after_its_time() {
    let mut watch = standard();
    watch.settings.auto_light_duration = 3;
    watch.toggle_light_at(500);
    watch.update_at(reading(10, 0, 0), 3_499);
    assert!(watch.light.is_on());
    watch.update_at(reading(10, 0, 9), 9_000);
    assert!(!watch.light.is_on());
}

#[test]
fn light_with_no_time_goes_out_on_the_next_tick() {
    let mut watch = standard();
    watch.settings.auto_light_duration = 0;
    watch.toggle_light_at(500);
    assert!(watch.light.is_on());
    watch.update_at(reading(10, 0, 0), 500);
    assert!(!watch.light.is_on());
}

#[test]
fn light_switched_on_again_counts_from_the_new_press() {
    let mut watch = standard();
    watch.toggle_light_at(0);
    watch.update_at(reading(10, 0, 0), 1_500);
    assert!(!watch.light.is_on());
    watch.toggle_light_at(1_600);
    watch.update_at(reading(10, 0, 0), 2_500);
    assert_eq!(watch.light, Backlight::On { anchor_ms: 1_600 });
    watch.update_at(reading(10, 0, 0), 2_600);
    assert_eq!(watch.light, Backlight::Off);
}

#[test]
fn light_goes_out_on_the_real_clock() {
    let mut watch = standard();
    watch.toggle_light();
    assert!(watch.light.is_on());
    watch.update();
    assert!(watch.light.is_on());
    let started = Instant::now();
    while started.elapsed() < Duration::from_millis(1_200) {
        watch.update();
    }
    watch.update();
    assert!(!watch.light.is_on());
    assert_eq!(watch.light, Backlight::Off);
}

#[test]
fn light_on_its_own() {
    let mut light = Backlight::Off;
    light.tick(1_000_000, 0);
    assert_eq!(light, Backlight::Off);
    light.toggle(10);
    assert_eq!(light, Backlight::On { anchor_ms: 10 });
    light.tick(2_009, 2);
    assert_eq!(light, Backlight::On { anchor_ms: 10 });
    light.tick(5, 2);
    assert_eq!(light, Backlight::On { anchor_ms: 10 });
    light.tick(2_010, 2);
    assert_eq!(light, Backlight::Off);
}

#[test]
fn light_button_leaves_the_rest_alone() {
    let mut watch = in_mode(WatchMode::Stopwatch);
    watch.toggle_start_stop_at(100);
    watch.toggle_light_at(200);
    assert_eq!(watch.mode, WatchMode::Stopwatch);
    assert_eq!(
        watch.stopwatch,
        ElapsedTimer { accumulated_ms: 0, state: RunState::Running { anchor_ms: 100, carried_ms: 0 } }
    );
    assert!(!watch.settings.alarm_enabled);
}

#[test]
fn alarm_button_sets_the_alarm_to_the_given_time() {
    let mut watch = standard();
    watch.set_alarm_at(&reading(7, 5, 42));
    assert!(watch.settings.alarm_enabled);
    assert_eq!(watch.settings.alarm_time, Some(String::from("07:05")));
    watch.set_alarm_at(&reading(9, 9, 9));
    assert!(!watch.settings.alarm_enabled);
    assert_eq!(watch.settings.alarm_time, None);
    watch.set_alarm_at(&reading(23, 59, 0));
    assert!(watch.settings.alarm_enabled);
    assert_eq!(watch.settings.alarm_time, Some(String::from("23:59")));
}

#[test]
fn alarm_button_leaves_the_other_settings_alone() {
    let mut watch = Watch::new(
        WatchModel::Standard,
        WatchSettings {
            time_format_24h: true,
            date_format_us: false,
            auto_light_duration: 9,
            alarm_enabled: false,
            alarm_time: None,
        },
    );
    watch.toggle_light_at(5);
    watch.set_alarm_at(&reading(1, 2, 3));
    assert!(watch.settings.time_format_24h);
    assert!(!watch.settings.date_format_us);
    assert_eq!(watch.settings.auto_light_duration, 9);
    assert_eq!(watch.mode, WatchMode::Home);
    assert_eq!(watch.light, Backlight::On { anchor_ms: 5 });
}

#[test]
fn alarm_button_clears_a_time_left_beside_a_disabled_alarm() {
    let mut watch = standard();
    watch.settings.alarm_enabled = true;
    watch.settings.alarm_time = None;
    watch.set_alarm_at(&reading(1, 2, 3));
    assert!(!watch.settings.alarm_enabled);
    assert_eq!(watch.settings.alarm_time, None);
    watch.settings.alarm_time = Some(String::from("05:00"));
    watch.set_alarm_at(&reading(1, 2, 3));
    assert!(watch.settings.alarm_enabled);
    assert_eq!(watch.settings.alarm_time, Some(String::from("01:02")));
}

#[test]
fn alarm_button_sets_the_alarm_a_minute_from_now() {
    assert_eq!(ALARM_LEAD_MINUTES, 1);
    let mut watch = standard();
    let pressed = chrono::Local::now();
    let before = pressed + chrono::Duration::minutes(1);
    watch.set_alarm();
    let after = chrono::Local::now() + chrono::Duration::minutes(1);
    assert!(watch.settings.alarm_enabled);
    let set = watch.settings.alarm_time.clone().unwrap();
    assert_eq!(set.len(), 5);
    assert!(
        set == before.format("%H:%M").to_string() || set == after.format("%H:%M").to_string()
    );
    assert_ne!(set, pressed.format("%H:%M").to_string());
    watch.set_alarm();
    assert!(!watch.settings.alarm_enabled);
    assert_eq!(watch.settings.alarm_time, None);
}

#[test]
fn tick_takes_the_reading_as_the_time() {
    let mut watch = standard();
    let shown = reading(4, 5, 6);
    let event = watch.update_at(shown, 0);
    assert_eq!(event, TickEvent::Quiet);
    assert_eq!(watch.time_manager.current_time.hour, 4);
    assert_eq!(watch.time_manager.current_time.minute, 5);
    assert_eq!(watch.time_manager.current_time.second, 6);
    assert_eq!(watch.time_manager.format_time(true), "04:05:06");
}

#[test]
fn tick_reports_the_alarm_in_its_minute() {
    let mut watch = standard();
    watch.set_alarm_at(&reading(6, 30, 0));
    assert_eq!(watch.update_at(reading(6, 29, 59), 0), TickEvent::Quiet);
    assert_eq!(watch.update_at(reading(6, 30, 0), 100), TickEvent::AlarmFired);
    assert_eq!(watch.update_at(reading(6, 30, 59), 200), TickEvent::AlarmFired);
    assert_eq!(watch.update_at(reading(6, 31, 0), 300), TickEvent::Quiet);
    assert!(watch.settings.alarm_enabled);
    assert_eq!(watch.settings.alarm_time, Some(String::from("06:30")));
}

#[test]
fn tick_goes_on_after_the_alarm() {
    let mut watch = in_mode(WatchMode::Stopwatch);
    watch.set_alarm_at(&reading(6, 30, 0));
    watch.toggle_start_stop_at(0);
    watch.toggle_light_at(0);
    assert_eq!(watch.update_at(reading(6, 30, 1), 1_000), TickEvent::AlarmFired);
    assert_eq!(watch.stopwatch.accumulated_ms, 1_000);
    assert_eq!(watch.light, Backlight::Off);
    assert_eq!(watch.update_at(reading(6, 30, 2), 2_000), TickEvent::AlarmFired);
    assert_eq!(watch.stopwatch.accumulated_ms, 2_000);
}

#[test]
fn a_disabled_alarm_is_not_reported() {
    let mut watch = standard();
    watch.settings.alarm_enabled = false;
    watch.settings.alarm_time = Some(String::from("06:30"));
    assert_eq!(watch.update_at(reading(6, 30, 0), 0), TickEvent::Quiet);
}

#[test]
fn an_alarm_without_a_time_is_not_reported() {
    let mut watch = standard();
    watch.settings.alarm_enabled = true;
    watch.settings.alarm_time = None;
    for hour in 0..24 {
        assert_eq!(watch.update_at(reading(hour, 0, 0), 0), TickEvent::Quiet);
    }
}

#[test]
fn an_alarm_with_a_malformed_time_is_not_reported() {
    let mut watch = standard();
    watch.settings.alarm_enabled = true;
    watch.settings.alarm_time = Some(String::from("25:99"));
    for hour in 0..24 {
        for minute in 0..60 {
            assert_eq!(watch.update_at(reading(hour, minute, 0), 0), TickEvent::Quiet);
        }
    }
}

#[test]
fn tick_on_the_real_clock() {
    let mut watch = in_mode(WatchMode::Stopwatch);
    watch.toggle_start_stop();
    let started = Instant::now();
    while started.elapsed() < Duration::from_millis(30) {}
    let event = watch.update();
    assert_eq!(event, TickEvent::Quiet);
    assert!(watch.time_manager.current_time.is_valid());
    assert!(watch.stopwatch.accumulated_ms >= 29);
    assert!(watch.stopwatch.accumulated_ms < 10_000);
    let first = watch.stopwatch.accumulated_ms;
    watch.update();
    assert!(watch.stopwatch.accumulated_ms >= first);
}

#[test]
fn the_clock_of_a_watch_does_not_run_backwards() {
    let mut watch = standard();
    let mut last = watch.clock.now_ms();
    assert!(last < 10_000);
    for _ in 0..1_000 {
        let now = watch.clock.now_ms();
        assert!(now >= last);
        last = now;
    }
}

#[test]
fn milliseconds_stop_at_the_largest_number() {
    assert_eq!(cap_millis(0), 0);
    assert_eq!(cap_millis(1_234), 1_234);
    assert_eq!(cap_millis(u64::MAX as u128), u64::MAX);
    assert_eq!(cap_millis(u64::MAX as u128 + 1), u64::MAX);
    assert_eq!(cap_millis(u128::MAX), u64::MAX);
}

#[test]
fn a_clock_counts_from_its_start() {
    let mut clock = MonotonicClock::start();
    let first = clock.now_ms();
    assert!(first < 5_000);
    let started = Instant::now();
    while started.elapsed() < Duration::from_millis(20) {}
    let second = clock.now_ms();
    assert!(second >= first + 19);
    assert!(second < 10_000);
}

#[test]
fn readings_of_a_copied_clock_stay_in_order() {
    let mut clock = MonotonicClock::start();
    let mut copy = clock;
    let mut last = 0;
    for _ in 0..1_000 {
        let a = clock.now_ms();
        let b = copy.now_ms();
        assert!(a >= last);
        assert!(b >= a);
        last = b;
    }
}

#[test]
fn buttons_on_the_real_clock_read_it_in_order() {
    let mut watch = in_mode(WatchMode::Stopwatch);
    watch.toggle_light();
    let lit = match watch.light {
        Backlight::On { anchor_ms } => anchor_ms,
        Backlight::Off => panic!("the light is on"),
    };
    watch.toggle_start_stop();
    let started = match watch.stopwatch.state {
        RunState::Running { anchor_ms, carried_ms } => {
            assert_eq!(carried_ms, 0);
            anchor_ms
        }
        RunState::Idle => panic!("the stopwatch runs"),
    };
    assert!(started >= lit);
    let between = watch.clock.now_ms();
    assert!(between >= started);
    watch.toggle_start_stop();
    assert_eq!(watch.stopwatch.state, RunState::Idle);
    let stopped = watch.clock.now_ms();
    assert!(watch.stopwatch.accumulated_ms >= between - started);
    assert!(watch.stopwatch.accumulated_ms <= stopped - started);
}
