//! The renderer: what each watch shows in each of its modes.
//!
//! A screen is a list of widgets drawn into a frame. For every model and
//! mode a spec function says what the screen holds, and the function that
//! draws it is proved to draw exactly that.

use vstd::prelude::*;
use vstd::string::*;

use crate::layout::{
    blank, centered, plain, text_at, Alignment, Color, DrawView, Frame, Line, Paragraph,
    ParagraphView, Rect, Style, Widget, WidgetView,
};
use crate::settings::WatchSettings;
use crate::text::{append_two_digits, two_digits};
use crate::time::{date_text, time_text, weekday_text, year_text, ClockReading};
use crate::watch::{F91WMode, Watch, WatchMode, WatchModel};

verus! {

/// The smaller of two numbers.
pub open spec fn smaller(a: u16, b: u16) -> u16 {
    if a <= b {
        a
    } else {
        b
    }
}

/// `a - b`, or 0 where `b` is the larger.
pub open spec fn minus_or_zero(a: u16, b: u16) -> u16 {
    if a >= b {
        (a - b) as u16
    } else {
        0
    }
}

/// `a + b`, or the largest `u16` where the sum is larger.
pub open spec fn plus_capped(a: u16, b: u16) -> u16 {
    if a + b > u16::MAX {
        u16::MAX
    } else {
        (a + b) as u16
    }
}

/// Computes `smaller`.
fn at_most(a: u16, b: u16) -> (least: u16)
    ensures
        least == smaller(a, b),
{
    if a <= b {
        a
    } else {
        b
    }
}

/// An elapsed time as the stopwatch and the timer show it: minutes, seconds
/// and hundredths of a second, `MM:SS.hh`. The minutes take more than two
/// digits where they need them.
pub open spec fn elapsed_text(milliseconds: u64) -> Seq<char> {
    two_digits((milliseconds / 1000 / 60) as nat) + seq![':'] + two_digits(
        (milliseconds / 1000 % 60) as nat,
    ) + seq!['.'] + two_digits((milliseconds % 1000 / 10) as nat)
}

/// Writes `elapsed_text`.
fn format_elapsed_time(milliseconds: u64) -> (text: String)
    ensures
        text@ == elapsed_text(milliseconds),
{
    let total_seconds = milliseconds / 1000;
    let minutes = total_seconds / 60;
    let seconds = total_seconds % 60;
    let hundredths = (milliseconds % 1000) / 10;
    let mut text = String::new();
    proof {
        reveal_strlit(":");
        reveal_strlit(".");
    }
    append_two_digits(&mut text, minutes);
    text.append(":");
    append_two_digits(&mut text, seconds);
    text.append(".");
    append_two_digits(&mut text, hundredths);
    assert(text@ =~= elapsed_text(milliseconds));
    text
}

/// The time on the stopwatch as text.
pub fn format_stopwatch_time(milliseconds: u64) -> (text: String)
    ensures
        text@ == elapsed_text(milliseconds),
{
    format_elapsed_time(milliseconds)
}

/// The time on the timer as text.
pub fn format_timer_time(milliseconds: u64) -> (text: String)
    ensures
        text@ == elapsed_text(milliseconds),
{
    format_elapsed_time(milliseconds)
}

/// The style of the word that says whether something runs: red while it
/// runs, blue while it stands.
pub open spec fn run_style(running: bool) -> Style {
    if running {
        Style::colored(Color::Red)
    } else {
        Style::colored(Color::Blue)
    }
}

/// Day of the week and date, as the home screen shows them.
pub open spec fn day_and_date_text(t: ClockReading, format_us: bool) -> Seq<char> {
    weekday_text(t) + seq![' '] + date_text(t, format_us)
}

/// What stands for the alarm on an alarm screen: its time while it is on,
/// `unset` where it is on and has no time, `off` while it is off.
pub open spec fn alarm_status_text(
    settings: WatchSettings,
    unset: Seq<char>,
    off: Seq<char>,
) -> Seq<char> {
    if settings.alarm_enabled {
        match settings.alarm_time {
            Some(time) => time@,
            None => unset,
        }
    } else {
        off
    }
}

/// Writes `alarm_status_text`.
fn alarm_status(settings: &WatchSettings, unset: &str, off: &str) -> (text: String)
    ensures
        text@ == alarm_status_text(*settings, unset@, off@),
{
    if settings.alarm_enabled {
        match &settings.alarm_time {
            Some(time) => time.clone(),
            None => String::from_str(unset),
        }
    } else {
        String::from_str(off)
    }
}

/// Writes `day_and_date_text`.
fn day_and_date(watch: &Watch) -> (text: String)
    requires
        watch.wf(),
    ensures
        text@ == day_and_date_text(watch.time_manager.current_time, watch.settings.date_format_us),
{
    let date_text = watch.time_manager.format_date(watch.settings.date_format_us);
    let mut text = watch.time_manager.format_day_of_week();
    proof {
        reveal_strlit(" ");
    }
    text.append(" ");
    text.append(date_text.as_str());
    assert(text@ =~= day_and_date_text(
        watch.time_manager.current_time,
        watch.settings.date_format_us,
    ));
    text
}

/// The angle of the hour hand, in tenths of a degree clockwise from twelve
/// o'clock: thirty degrees for each hour on the dial and half a degree for
/// each minute.
pub open spec fn hour_hand(t: ClockReading) -> int {
    (t.hour % 12) * 300 + t.minute * 5
}

/// The angle of the minute hand, in tenths of a degree: six degrees for each
/// minute and a tenth for each second.
pub open spec fn minute_hand(t: ClockReading) -> int {
    t.minute * 60 + t.second
}

/// The angle of the second hand, in tenths of a degree: six degrees for each
/// second.
pub open spec fn second_hand(t: ClockReading) -> int {
    t.second * 60
}

/// The hand is in the upper half of the dial, the horizontal included.
pub open spec fn points_up(angle: int) -> bool {
    angle >= 2700 || angle <= 900
}

/// The hand is in the lower half of the dial.
pub open spec fn points_down(angle: int) -> bool {
    900 < angle <= 2700
}

/// The hand is in the right half of the dial, six o'clock included.
pub open spec fn points_right(angle: int) -> bool {
    0 < angle <= 1800
}

/// The hand is in the left half of the dial, twelve o'clock at 360 degrees
/// included.
pub open spec fn points_left(angle: int) -> bool {
    1800 < angle <= 3600
}

/// `mark` where `shown` holds, a space where it does not.
pub open spec fn mark_or_space(shown: bool, mark: Seq<char>) -> Seq<char> {
    if shown {
        mark
    } else {
        " "@
    }
}

/// The row of the dial above its centre.
pub open spec fn dial_upper_row(t: ClockReading) -> Seq<char> {
    "│  "@ + mark_or_space(points_up(hour_hand(t)), "▲"@) + mark_or_space(
        points_up(minute_hand(t)),
        "●"@,
    ) + "  │"@
}

/// The row of the dial through its centre.
pub open spec fn dial_middle_row(t: ClockReading) -> Seq<char> {
    "│"@ + mark_or_space(points_left(hour_hand(t)), "◀"@) + mark_or_space(
        points_left(minute_hand(t)),
        "●"@,
    ) + " "@ + mark_or_space(points_left(second_hand(t)), "·"@) + mark_or_space(
        points_right(minute_hand(t)),
        "●"@,
    ) + mark_or_space(points_right(hour_hand(t)), "▶"@) + "│"@
}

/// The row of the dial below its centre.
pub open spec fn dial_lower_row(t: ClockReading) -> Seq<char> {
    "│  "@ + mark_or_space(points_down(minute_hand(t)), "●"@) + mark_or_space(
        points_down(hour_hand(t)),
        "▼"@,
    ) + "  │"@
}

/// The small dial in the corner of the home screen: a box with a mark for
/// each half of the dial in which a hand stands.
pub open spec fn analog_panel(t: ClockReading) -> ParagraphView {
    ParagraphView {
        lines: seq![
            plain("┌────────┐"@),
            plain(dial_upper_row(t)),
            plain(dial_middle_row(t)),
            plain(dial_lower_row(t)),
            plain("└────────┘"@),
        ],
        style: Style::colored(Color::Yellow),
        alignment: Alignment::Left,
    }
}

/// Where the dial stands on a screen that fills `area`.
pub open spec fn analog_area(area: Rect) -> Rect {
    Rect {
        x: (area.x + 2) as u16,
        y: (area.y + 1) as u16,
        width: smaller(10, area.width),
        height: smaller(5, area.height),
    }
}

/// The text of the home screen of the multi-function watch.
pub open spec fn home_panel(watch: Watch) -> ParagraphView {
    ParagraphView {
        lines: seq![
            blank(),
            centered(
                time_text(watch.time_manager.current_time, watch.settings.time_format_24h),
                Style::strong(Color::Green),
            ),
            blank(),
            centered(
                day_and_date_text(watch.time_manager.current_time, watch.settings.date_format_us),
                Style::colored(Color::Cyan),
            ),
            blank(),
            blank(),
            plain("press 'M' for mode, 'L' for backlight"@),
        ],
        style: Style::plain(),
        alignment: Alignment::Left,
    }
}

/// The home screen of the multi-function watch: its text, and the dial on
/// top of it.
pub open spec fn home_screen(area: Rect, watch: Watch) -> Seq<DrawView> {
    seq![
        text_at(home_panel(watch), area),
        text_at(analog_panel(watch.time_manager.current_time), analog_area(area)),
    ]
}

/// A screen for the date: day of the week, day and month, and the year.
pub open spec fn date_panel(watch: Watch) -> ParagraphView {
    ParagraphView {
        lines: seq![
            blank(),
            blank(),
            blank(),
            centered(
                day_and_date_text(watch.time_manager.current_time, watch.settings.date_format_us),
                Style::strong(Color::Cyan),
            ),
            blank(),
            centered(year_text(watch.time_manager.current_time), Style::colored(Color::Cyan)),
            blank(),
            blank(),
            blank(),
            plain("Press 'M' for mode, 'L' for light"@),
        ],
        style: Style::plain(),
        alignment: Alignment::Left,
    }
}

/// The stopwatch of the multi-function watch.
pub open spec fn stopwatch_panel(watch: Watch) -> ParagraphView {
    ParagraphView {
        lines: seq![
            blank(),
            blank(),
            centered("STOPWATCH"@, Style::strong(Color::Yellow)),
            blank(),
            centered(elapsed_text(watch.stopwatch.accumulated_ms), Style::strong(Color::Green)),
            blank(),
            centered(
                if watch.stopwatch.running() {
                    "RUNNING"@
                } else {
                    "STOPPED"@
                },
                run_style(watch.stopwatch.running()),
            ),
            blank(),
            blank(),
            plain("press 'S' start/stop, 'R' reset"@),
            plain("press 'M' for mode, 'L' for backlight"@),
        ],
        style: Style::plain(),
        alignment: Alignment::Left,
    }
}

/// The world time screen of the multi-function watch.
pub open spec fn world_time_panel(watch: Watch) -> ParagraphView {
    ParagraphView {
        lines: seq![
            blank(),
            blank(),
            centered("WT"@, Style::strong(Color::Yellow)),
            blank(),
            centered(
                time_text(watch.time_manager.current_time, watch.settings.time_format_24h),
                Style::strong(Color::Green),
            ),
            blank(),
            blank(),
            plain("Press 'M' for mode, 'L' for backlight"@),
        ],
        style: Style::plain(),
        alignment: Alignment::Left,
    }
}

/// The alarm screen of the multi-function watch.
pub open spec fn alarm_panel(watch: Watch) -> ParagraphView {
    ParagraphView {
        lines: seq![
            blank(),
            blank(),
            centered("ALM"@, Style::strong(Color::Red)),
            blank(),
            centered(
                alarm_status_text(watch.settings, "Not set"@, "Disabled"@),
                Style::colored(Color::Cyan),
            ),
            blank(),
            blank(),
            plain("Press 'A' to toggle, 'M' for mode"@),
        ],
        style: Style::plain(),
        alignment: Alignment::Left,
    }
}

/// The timer of the multi-function watch.
pub open spec fn timer_panel(watch: Watch) -> ParagraphView {
    ParagraphView {
        lines: seq![
            blank(),
            blank(),
            centered("TMR"@, Style::strong(Color::Magenta)),
            blank(),
            centered(elapsed_text(watch.timer.accumulated_ms), Style::strong(Color::Green)),
            blank(),
            centered(
                if watch.timer.running() {
                    "RUNNING"@
                } else {
                    "STOPPED"@
                },
                run_style(watch.timer.running()),
            ),
            blank(),
            blank(),
            plain("Press 'S' start/stop, 'R' reset"@),
            plain("Press 'M' for mode, 'L' for backlight"@),
        ],
        style: Style::plain(),
        alignment: Alignment::Left,
    }
}

/// The time screen of the simpler watch.
pub open spec fn f91w_time_panel(watch: Watch) -> ParagraphView {
    ParagraphView {
        lines: seq![
            blank(),
            centered(
                time_text(watch.time_manager.current_time, watch.settings.time_format_24h),
                Style::strong(Color::Green),
            ),
            blank(),
            centered(
                date_text(watch.time_manager.current_time, watch.settings.date_format_us),
                Style::colored(Color::Cyan),
            ),
            blank(),
            plain("press 'M' for mode"@),
        ],
        style: Style::plain(),
        alignment: Alignment::Left,
    }
}

/// The alarm screen of the simpler watch.
pub open spec fn f91w_alarm_panel(watch: Watch) -> ParagraphView {
    ParagraphView {
        lines: seq![
            blank(),
            centered("ALARM"@, Style::strong(Color::Red)),
            blank(),
            centered(
                alarm_status_text(watch.settings, "--:--"@, "OFF"@),
                Style::colored(Color::Cyan),
            ),
            blank(),
            plain("press 'A' toggle, 'M' mode"@),
        ],
        style: Style::plain(),
        alignment: Alignment::Left,
    }
}

/// The stopwatch of the simpler watch.
pub open spec fn f91w_stopwatch_panel(watch: Watch) -> ParagraphView {
    ParagraphView {
        lines: seq![
            blank(),
            centered("STOPWATCH"@, Style::strong(Color::Yellow)),
            blank(),
            centered(elapsed_text(watch.stopwatch.accumulated_ms), Style::strong(Color::Green)),
            blank(),
            centered(
                if watch.stopwatch.running() {
                    "RUN"@
                } else {
                    "STOP"@
                },
                run_style(watch.stopwatch.running()),
            ),
            blank(),
            plain("press 'S' start/stop, 'R' reset"@),
            plain("press 'M' for mode"@),
        ],
        style: Style::plain(),
        alignment: Alignment::Left,
    }
}

/// The mark that says that the backlight is on.
pub open spec fn light_indicator(area: Rect) -> DrawView {
    DrawView {
        widget: WidgetView::Paragraph(
            ParagraphView {
                lines: seq![plain("LGT"@)],
                style: Style::strong(Color::Yellow),
                alignment: Alignment::Right,
            },
        ),
        area: Rect {
            x: (area.x + minus_or_zero(area.width, 8)) as u16,
            y: (area.y + 1) as u16,
            width: smaller(7, area.width),
            height: 1,
        },
    }
}

/// The mark that says that the alarm is switched on.
pub open spec fn alarm_indicator(area: Rect) -> DrawView {
    DrawView {
        widget: WidgetView::Paragraph(
            ParagraphView {
                lines: seq![plain("ALM"@)],
                style: Style::strong(Color::Red),
                alignment: Alignment::Left,
            },
        ),
        area: Rect {
            x: (area.x + 1) as u16,
            y: (area.y + 1) as u16,
            width: smaller(8, area.width),
            height: 1,
        },
    }
}

/// The marks in the top corners of the face `area`: the light's on the
/// right where the light is on, then the alarm's on the left where the alarm
/// is switched on.
pub open spec fn status_indicators(area: Rect, watch: Watch) -> Seq<DrawView> {
    (if watch.light.on() {
        seq![light_indicator(area)]
    } else {
        Seq::empty()
    }) + (if watch.settings.alarm_enabled {
        seq![alarm_indicator(area)]
    } else {
        Seq::empty()
    })
}

/// Draws the home screen of the multi-function watch.
pub fn render_time_display(f: &mut Frame, area: Rect, watch: &Watch)
    requires
        watch.wf(),
        area.x + 2 <= u16::MAX,
        area.y + 1 <= u16::MAX,
    ensures
        final(f)@ == old(f)@ + home_screen(area, *watch),
        final(f).area == old(f).area,
{
    let time_text = watch.time_manager.format_time(watch.settings.time_format_24h);
    let lines = vec![
        Line::blank(),
        Line::styled(time_text, Style::new().fg(Color::Green).bold()).centered(),
        Line::blank(),
        Line::styled(day_and_date(watch), Style::new().fg(Color::Cyan)).centered(),
        Line::blank(),
        Line::blank(),
        Line::raw("press 'M' for mode, 'L' for backlight"),
    ];
    let time_display = Paragraph::new(lines);
    assert(time_display@.lines =~= home_panel(*watch).lines);
    f.render_widget(Widget::Paragraph(time_display), area);
    render_analog_display(f, area, watch);
    assert(f@ =~= old(f)@ + home_screen(area, *watch));
}

/// Writes a mark where `shown` holds, a space where it does not.
fn append_mark(out: &mut String, shown: bool, mark: &str)
    ensures
        final(out)@ == old(out)@ + mark_or_space(shown, mark@),
{
    if shown {
        out.append(mark);
    } else {
        out.append(" ");
    }
}

/// Draws the small dial into the corner of a home screen that fills `area`.
pub fn render_analog_display(f: &mut Frame, area: Rect, watch: &Watch)
    requires
        watch.wf(),
        area.x + 2 <= u16::MAX,
        area.y + 1 <= u16::MAX,
    ensures
        final(f)@ == old(f)@.push(
            text_at(analog_panel(watch.time_manager.current_time), analog_area(area)),
        ),
        final(f).area == old(f).area,
{
    let analog_area = Rect {
        x: area.x + 2,
        y: area.y + 1,
        width: at_most(10, area.width),
        height: at_most(5, area.height),
    };
    let time = &watch.time_manager.current_time;
    let hour_angle: u32 = (time.hour % 12) * 300 + time.minute * 5;
    let minute_angle: u32 = time.minute * 60 + time.second;
    let second_angle: u32 = time.second * 60;

    let mut upper = String::from_str("│  ");
    append_mark(&mut upper, hour_angle >= 2700 || hour_angle <= 900, "▲");
    append_mark(&mut upper, minute_angle >= 2700 || minute_angle <= 900, "●");
    upper.append("  │");
    assert(upper@ =~= dial_upper_row(*time));

    let mut middle = String::from_str("│");
    append_mark(&mut middle, hour_angle > 1800 && hour_angle <= 3600, "◀");
    append_mark(&mut middle, minute_angle > 1800 && minute_angle <= 3600, "●");
    middle.append(" ");
    append_mark(&mut middle, second_angle > 1800 && second_angle <= 3600, "·");
    append_mark(&mut middle, minute_angle > 0 && minute_angle <= 1800, "●");
    append_mark(&mut middle, hour_angle > 0 && hour_angle <= 1800, "▶");
    middle.append("│");
    assert(middle@ =~= dial_middle_row(*time));

    let mut lower = String::from_str("│  ");
    append_mark(&mut lower, minute_angle > 900 && minute_angle <= 2700, "●");
    append_mark(&mut lower, hour_angle > 900 && hour_angle <= 2700, "▼");
    lower.append("  │");
    assert(lower@ =~= dial_lower_row(*time));

    let lines = vec![
        Line::raw("┌────────┐"),
        Line::styled(upper, Style::new()),
        Line::styled(middle, Style::new()),
        Line::styled(lower, Style::new()),
        Line::raw("└────────┘"),
    ];
    let analog_display = Paragraph::new(lines).style(Style::new().fg(Color::Yellow));
    assert(analog_display@.lines =~= analog_panel(*time).lines);
    f.render_widget(Widget::Paragraph(analog_display), analog_area);
}

/// Draws the date screen.
pub fn render_date_display(f: &mut Frame, area: Rect, watch: &Watch)
    requires
        watch.wf(),
    ensures
        final(f)@ == old(f)@.push(text_at(date_panel(*watch), area)),
        final(f).area == old(f).area,
{
    let year_text = watch.time_manager.format_year();
    let lines = vec![
        Line::blank(),
        Line::blank(),
        Line::blank(),
        Line::styled(day_and_date(watch), Style::new().fg(Color::Cyan).bold()).centered(),
        Line::blank(),
        Line::styled(year_text, Style::new().fg(Color::Cyan)).centered(),
        Line::blank(),
        Line::blank(),
        Line::blank(),
        Line::raw("Press 'M' for mode, 'L' for light"),
    ];
    let date_display = Paragraph::new(lines);
    assert(date_display@.lines =~= date_panel(*watch).lines);
    f.render_widget(Widget::Paragraph(date_display), area);
}

/// Draws the stopwatch of the multi-function watch.
pub fn render_stopwatch_display(f: &mut Frame, area: Rect, watch: &Watch)
    ensures
        final(f)@ == old(f)@.push(text_at(stopwatch_panel(*watch), area)),
        final(f).area == old(f).area,
{
    let time_text = format_stopwatch_time(watch.stopwatch.accumulated_ms);
    let running = watch.stopwatch.is_running();
    let status = if running {
        "RUNNING"
    } else {
        "STOPPED"
    };
    let lines = vec![
        Line::blank(),
        Line::blank(),
        Line::styled(String::from_str("STOPWATCH"), Style::new().fg(Color::Yellow).bold()).centered(),
        Line::blank(),
        Line::styled(time_text, Style::new().fg(Color::Green).bold()).centered(),
        Line::blank(),
        Line::styled(
            String::from_str(status),
            if running {
                Style::new().fg(Color::Red)
            } else {
                Style::new().fg(Color::Blue)
            },
        ).centered(),
        Line::blank(),
        Line::blank(),
        Line::raw("press 'S' start/stop, 'R' reset"),
        Line::raw("press 'M' for mode, 'L' for backlight"),
    ];
    let stopwatch_display = Paragraph::new(lines);
    assert(stopwatch_display@.lines =~= stopwatch_panel(*watch).lines);
    f.render_widget(Widget::Paragraph(stopwatch_display), area);
}

/// Draws the marks of the light and of the alarm into the top corners of the
/// face `area`, each only where what it stands for is on.
pub fn render_status_indicators(f: &mut Frame, area: Rect, watch: &Watch)
    requires
        area.x + minus_or_zero(area.width, 8) <= u16::MAX,
        area.x + 1 <= u16::MAX,
        area.y + 1 <= u16::MAX,
    ensures
        final(f)@ == old(f)@ + status_indicators(area, *watch),
        final(f).area == old(f).area,
{
    if watch.light.is_on() {
        let light_indicator = Paragraph::new(vec![Line::raw("LGT")]).style(
            Style::new().fg(Color::Yellow).bold(),
        ).alignment(Alignment::Right);
        let light_area = Rect {
            x: area.x + area.width.saturating_sub(8),
            y: area.y + 1,
            width: at_most(7, area.width),
            height: 1,
        };
        assert(light_indicator@.lines =~= seq![plain("LGT"@)]);
        f.render_widget(Widget::Paragraph(light_indicator), light_area);
    }
    if watch.settings.alarm_enabled {
        let alarm_indicator = Paragraph::new(vec![Line::raw("ALM")]).style(
            Style::new().fg(Color::Red).bold(),
        ).alignment(Alignment::Left);
        let alarm_area = Rect {
            x: area.x + 1,
            y: area.y + 1,
            width: at_most(8, area.width),
            height: 1,
        };
        assert(alarm_indicator@.lines =~= seq![plain("ALM"@)]);
        f.render_widget(Widget::Paragraph(alarm_indicator), alarm_area);
    }
    assert(f@ =~= old(f)@ + status_indicators(area, *watch));
}

/// Draws the world time screen of the multi-function watch.
pub fn render_world_time_display(f: &mut Frame, area: Rect, watch: &Watch)
    ensures
        final(f)@ == old(f)@.push(text_at(world_time_panel(*watch), area)),
        final(f).area == old(f).area,
{
    let time_text = watch.time_manager.format_time(watch.settings.time_format_24h);
    let lines = vec![
        Line::blank(),
        Line::blank(),
        Line::styled(String::from_str("WT"), Style::new().fg(Color::Yellow).bold()).centered(),
        Line::blank(),
        Line::styled(time_text, Style::new().fg(Color::Green).bold()).centered(),
        Line::blank(),
        Line::blank(),
        Line::raw("Press 'M' for mode, 'L' for backlight"),
    ];
    let world_time_display = Paragraph::new(lines);
    assert(world_time_display@.lines =~= world_time_panel(*watch).lines);
    f.render_widget(Widget::Paragraph(world_time_display), area);
}

/// Draws the alarm screen of the multi-function watch.
pub fn render_alarm_display(f: &mut Frame, area: Rect, watch: &Watch)
    ensures
        final(f)@ == old(f)@.push(text_at(alarm_panel(*watch), area)),
        final(f).area == old(f).area,
{
    let alarm_status = alarm_status(&watch.settings, "Not set", "Disabled");
    let lines = vec![
        Line::blank(),
        Line::blank(),
        Line::styled(String::from_str("ALM"), Style::new().fg(Color::Red).bold()).centered(),
        Line::blank(),
        Line::styled(alarm_status, Style::new().fg(Color::Cyan)).centered(),
        Line::blank(),
        Line::blank(),
        Line::raw("Press 'A' to toggle, 'M' for mode"),
    ];
    let alarm_display = Paragraph::new(lines);
    assert(alarm_display@.lines =~= alarm_panel(*watch).lines);
    f.render_widget(Widget::Paragraph(alarm_display), area);
}

/// Draws the timer of the multi-function watch.
pub fn render_timer_display(f: &mut Frame, area: Rect, watch: &Watch)
    ensures
        final(f)@ == old(f)@.push(text_at(timer_panel(*watch), area)),
        final(f).area == old(f).area,
{
    let time_text = format_timer_time(watch.timer.accumulated_ms);
    let running = watch.timer.is_running();
    let status = if running {
        "RUNNING"
    } else {
        "STOPPED"
    };
    let lines = vec![
        Line::blank(),
        Line::blank(),
        Line::styled(String::from_str("TMR"), Style::new().fg(Color::Magenta).bold()).centered(),
        Line::blank(),
        Line::styled(time_text, Style::new().fg(Color::Green).bold()).centered(),
        Line::blank(),
        Line::styled(
            String::from_str(status),
            if running {
                Style::new().fg(Color::Red)
            } else {
                Style::new().fg(Color::Blue)
            },
        ).centered(),
        Line::blank(),
        Line::blank(),
        Line::raw("Press 'S' start/stop, 'R' reset"),
        Line::raw("Press 'M' for mode, 'L' for backlight"),
    ];
    let timer_display = Paragraph::new(lines);
    assert(timer_display@.lines =~= timer_panel(*watch).lines);
    f.render_widget(Widget::Paragraph(timer_display), area);
}

/// Draws the time screen of the simpler watch.
pub fn render_f91w_time_display(f: &mut Frame, area: Rect, watch: &Watch)
    ensures
        final(f)@ == old(f)@.push(text_at(f91w_time_panel(*watch), area)),
        final(f).area == old(f).area,
{
    let time_text = watch.time_manager.format_time(watch.settings.time_format_24h);
    let date_text = watch.time_manager.format_date(watch.settings.date_format_us);
    let lines = vec![
        Line::blank(),
        Line::styled(time_text, Style::new().fg(Color::Green).bold()).centered(),
        Line::blank(),
        Line::styled(date_text, Style::new().fg(Color::Cyan)).centered(),
        Line::blank(),
        Line::raw("press 'M' for mode"),
    ];
    let time_display = Paragraph::new(lines);
    assert(time_display@.lines =~= f91w_time_panel(*watch).lines);
    f.render_widget(Widget::Paragraph(time_display), area);
}

/// Draws the alarm screen of the simpler watch.
pub fn render_f91w_alarm_display(f: &mut Frame, area: Rect, watch: &Watch)
    ensures
        final(f)@ == old(f)@.push(text_at(f91w_alarm_panel(*watch), area)),
        final(f).area == old(f).area,
{
    let alarm_status = alarm_status(&watch.settings, "--:--", "OFF");
    let lines = vec![
        Line::blank(),
        Line::styled(String::from_str("ALARM"), Style::new().fg(Color::Red).bold()).centered(),
        Line::blank(),
        Line::styled(alarm_status, Style::new().fg(Color::Cyan)).centered(),
        Line::blank(),
        Line::raw("press 'A' toggle, 'M' mode"),
    ];
    let alarm_display = Paragraph::new(lines);
    assert(alarm_display@.lines =~= f91w_alarm_panel(*watch).lines);
    f.render_widget(Widget::Paragraph(alarm_display), area);
}

/// Draws the stopwatch of the simpler watch.
pub fn render_f91w_stopwatch_display(f: &mut Frame, area: Rect, watch: &Watch)
    ensures
        final(f)@ == old(f)@.push(text_at(f91w_stopwatch_panel(*watch), area)),
        final(f).area == old(f).area,
{
    let time_text = format_stopwatch_time(watch.stopwatch.accumulated_ms);
    let running = watch.stopwatch.is_running();
    let status = if running {
        "RUN"
    } else {
        "STOP"
    };
    let lines = vec![
        Line::blank(),
        Line::styled(String::from_str("STOPWATCH"), Style::new().fg(Color::Yellow).bold()).centered(),
        Line::blank(),
        Line::styled(time_text, Style::new().fg(Color::Green).bold()).centered(),
        Line::blank(),
        Line::styled(
            String::from_str(status),
            if running {
                Style::new().fg(Color::Red)
            } else {
                Style::new().fg(Color::Blue)
            },
        ).centered(),
        Line::blank(),
        Line::raw("press 'S' start/stop, 'R' reset"),
        Line::raw("press 'M' for mode"),
    ];
    let stopwatch_display = Paragraph::new(lines);
    assert(stopwatch_display@.lines =~= f91w_stopwatch_panel(*watch).lines);
    f.render_widget(Widget::Paragraph(stopwatch_display), area);
}

/// The width of the face of a watch, in terminal cells.
pub open spec fn face_width(model: WatchModel) -> u16 {
    match model {
        WatchModel::Standard => 50,
        WatchModel::Minimal => 30,
    }
}

/// The height of the face of a watch, in terminal cells.
pub open spec fn face_height(model: WatchModel) -> u16 {
    match model {
        WatchModel::Standard => 15,
        WatchModel::Minimal => 10,
    }
}

/// The name that stands in the top edge of the face.
pub open spec fn face_title(model: WatchModel) -> Seq<char> {
    match model {
        WatchModel::Standard => "Casio AE-1200"@,
        WatchModel::Minimal => "Casio F-91W"@,
    }
}

/// Where the face stands on a terminal of the given size: in the middle,
/// cut down to the terminal where the terminal is the smaller.
pub open spec fn face_area(size: Rect, model: WatchModel) -> Rect {
    Rect {
        x: (minus_or_zero(size.width, face_width(model)) / 2) as u16,
        y: (minus_or_zero(size.height, face_height(model)) / 2) as u16,
        width: smaller(face_width(model), size.width),
        height: smaller(face_height(model), size.height),
    }
}

/// What a border on all four sides leaves of `area`: one column and one row
/// less on each side, and nothing where `area` is too small for that.
pub open spec fn inner_of_bordered(area: Rect) -> Rect {
    Rect {
        x: smaller(plus_capped(area.x, 1), plus_capped(area.x, area.width)),
        y: smaller(plus_capped(area.y, 1), plus_capped(area.y, area.height)),
        width: minus_or_zero(area.width, 2),
        height: minus_or_zero(area.height, 2),
    }
}

/// The text that fills the face in the mode that the watch is in.
pub open spec fn mode_panel(watch: Watch) -> ParagraphView {
    match watch.model {
        WatchModel::Standard => match watch.mode {
            WatchMode::Home => home_panel(watch),
            WatchMode::WorldTime => world_time_panel(watch),
            WatchMode::Alarm => alarm_panel(watch),
            WatchMode::Timer => timer_panel(watch),
            WatchMode::Stopwatch => stopwatch_panel(watch),
        },
        WatchModel::Minimal => match watch.f91w_mode {
            F91WMode::Time => f91w_time_panel(watch),
            F91WMode::Alarm => f91w_alarm_panel(watch),
            F91WMode::Stopwatch => f91w_stopwatch_panel(watch),
        },
    }
}

/// What the watch shows inside its border: the text of its mode, and on the
/// home screen of the multi-function watch the dial on top of it.
pub open spec fn mode_screen(area: Rect, watch: Watch) -> Seq<DrawView> {
    if watch.model == WatchModel::Standard && watch.mode == WatchMode::Home {
        home_screen(area, watch)
    } else {
        seq![text_at(mode_panel(watch), area)]
    }
}

/// The face of the watch before anything is shown on it: the cells of the
/// face blanked, then a blue border with the name of the watch.
pub open spec fn face_frame(face: Rect, model: WatchModel) -> Seq<DrawView> {
    seq![
        DrawView { widget: WidgetView::Clear, area: face },
        DrawView {
            widget: WidgetView::Block {
                title: face_title(model),
                border_style: Style::colored(Color::Blue),
            },
            area: face,
        },
    ]
}

/// The whole screen of the watch on a terminal of the given size: the face,
/// what the mode shows inside its border, and the marks of light and alarm
/// on top.
pub open spec fn screen(size: Rect, watch: Watch) -> Seq<DrawView> {
    face_frame(face_area(size, watch.model), watch.model) + mode_screen(
        inner_of_bordered(face_area(size, watch.model)),
        watch,
    ) + status_indicators(face_area(size, watch.model), watch)
}

/// Every model in every mode has a screen of its own: the text of the mode
/// fills the inside of the border, begins with an empty row and ends with the
/// row that names the keys. Only the home screen of the multi-function watch
/// draws anything more, the dial.
pub proof fn lemma_every_mode_has_a_screen(area: Rect, watch: Watch)
    ensures
        mode_screen(area, watch).len() >= 1,
        mode_screen(area, watch)[0] == text_at(mode_panel(watch), area),
        mode_panel(watch).lines.len() >= 6,
        mode_panel(watch).lines[0] == blank(),
        mode_panel(watch).lines.last().style == Style::plain(),
        mode_panel(watch).style == Style::plain(),
        mode_screen(area, watch).len() == if watch.model == WatchModel::Standard && watch.mode
            == WatchMode::Home {
            2int
        } else {
            1int
        },
{
}

/// The mark of the light is on the screen exactly while the light is on, and
/// the mark of the alarm exactly while the alarm is switched on, in every
/// mode of either model.
pub proof fn lemma_indicators_follow_state(size: Rect, watch: Watch)
    ensures
        screen(size, watch).contains(light_indicator(face_area(size, watch.model)))
            <==> watch.light.on(),
        screen(size, watch).contains(alarm_indicator(face_area(size, watch.model)))
            <==> watch.settings.alarm_enabled,
{
    let face = face_area(size, watch.model);
    let inner = inner_of_bordered(face);
    let below = face_frame(face, watch.model) + mode_screen(inner, watch);
    let marks = status_indicators(face, watch);
    let light = light_indicator(face);
    let alarm = alarm_indicator(face);
    lemma_every_mode_has_a_screen(inner, watch);
    assert(screen(size, watch) =~= below + marks);
    assert forall|i: int| 0 <= i < below.len() implies below[i] != light && below[i] != alarm by {
        if i >= 2 {
            assert(below[i] == mode_screen(inner, watch)[i - 2]);
        }
    }
    assert(light != alarm);
    if watch.light.on() {
        assert((below + marks)[below.len() as int] == light);
    }
    if watch.settings.alarm_enabled {
        assert((below + marks)[below.len() + marks.len() - 1] == alarm);
    }
    if (below + marks).contains(light) {
        let i = choose|i: int| 0 <= i < (below + marks).len() && (below + marks)[i] == light;
        assert(i >= below.len());
        assert(marks[i - below.len()] == light);
    }
    if (below + marks).contains(alarm) {
        let i = choose|i: int| 0 <= i < (below + marks).len() && (below + marks)[i] == alarm;
        assert(i >= below.len());
        assert(marks[i - below.len()] == alarm);
    }
}

/// The marks of light and alarm stand in the top row inside the border, the
/// light's at the right end and the alarm's at the left end. That row is the
/// empty first row of the mode's text, and the dial of the home screen begins
/// one row further down, so that the marks cover nothing that the mode shows.
/// The light's mark never leaves the face; on a face of nine columns or more
/// neither does the alarm's, and on one of seventeen or more the two marks do
/// not meet.
pub proof fn lemma_indicators_cover_nothing(size: Rect, watch: Watch)
    requires
        size.height >= 1,
    ensures
        ({
            let face = face_area(size, watch.model);
            let inner = inner_of_bordered(face);
            let light = light_indicator(face).area;
            let alarm = alarm_indicator(face).area;
            &&& mode_screen(inner, watch)[0].area.y == face.y + 1
            &&& mode_panel(watch).lines[0] == blank()
            &&& analog_area(inner).y == face.y + 2
            &&& light.y == face.y + 1 && light.height == 1
            &&& alarm.y == face.y + 1 && alarm.height == 1
            &&& alarm.x == face.x + 1
            &&& light.x + light.width <= face.x + face.width
            &&& face.width >= 9 ==> alarm.x + alarm.width <= face.x + face.width
            &&& face.width >= 17 ==> alarm.x + alarm.width <= light.x
        }),
{
    lemma_every_mode_has_a_screen(inner_of_bordered(face_area(size, watch.model)), watch);
}

/// Asks ratatui's `Block::inner` what a block with a border on all four sides
/// and no padding leaves of `area`.
///
/// Not proved: that the answer is `inner_of_bordered(area)`. ratatui moves
/// the left and the top edge in by one cell, but not past the far edge, and
/// takes two cells off the width and off the height, stopping at zero. A
/// title in the top border changes none of this.
#[verifier::external_body]
fn bordered_inner(area: Rect) -> (inner: Rect)
    ensures
        inner == inner_of_bordered(area),
{
    let outer = ratatui::layout::Rect {
        x: area.x,
        y: area.y,
        width: area.width,
        height: area.height,
    };
    let block = ratatui::widgets::Block::default().borders(ratatui::widgets::Borders::ALL);
    let inner = block.inner(outer);
    Rect { x: inner.x, y: inner.y, width: inner.width, height: inner.height }
}

/// Draws the watch into the frame: its face in the middle of the terminal,
/// the screen of its model and mode inside the border, and the marks of the
/// light and of the alarm in the top corners.
pub fn ui(f: &mut Frame, watch: &Watch)
    requires
        watch.wf(),
    ensures
        final(f)@ == old(f)@ + screen(old(f).area, *watch),
        final(f).area == old(f).area,
{
    let size = f.area();
    let (watch_width, watch_height): (u16, u16) = match watch.model {
        WatchModel::Standard => (50, 15),
        WatchModel::Minimal => (30, 10),
    };
    let watch_area = Rect {
        x: size.width.saturating_sub(watch_width) / 2,
        y: size.height.saturating_sub(watch_height) / 2,
        width: at_most(watch_width, size.width),
        height: at_most(watch_height, size.height),
    };
    assert(watch_area == face_area(size, watch.model));
    let title = match watch.model {
        WatchModel::Standard => "Casio AE-1200",
        WatchModel::Minimal => "Casio F-91W",
    };
    let watch_block = Widget::Block {
        title: String::from_str(title),
        border_style: Style::new().fg(Color::Blue),
    };
    f.render_widget(Widget::Clear, watch_area);
    let watch_inner = bordered_inner(watch_area);
    f.render_widget(watch_block, watch_area);
    let ghost framed = f@;
    assert(framed =~= old(f)@ + face_frame(watch_area, watch.model));
    match watch.model {
        WatchModel::Standard => match watch.mode {
            WatchMode::Home => {
                render_time_display(f, watch_inner, watch);
            },
            WatchMode::WorldTime => {
                render_world_time_display(f, watch_inner, watch);
            },
            WatchMode::Alarm => {
                render_alarm_display(f, watch_inner, watch);
            },
            WatchMode::Timer => {
                render_timer_display(f, watch_inner, watch);
            },
            WatchMode::Stopwatch => {
                render_stopwatch_display(f, watch_inner, watch);
            },
        },
        WatchModel::Minimal => match watch.f91w_mode {
            F91WMode::Time => {
                render_f91w_time_display(f, watch_inner, watch);
            },
            F91WMode::Alarm => {
                render_f91w_alarm_display(f, watch_inner, watch);
            },
            F91WMode::Stopwatch => {
                render_f91w_stopwatch_display(f, watch_inner, watch);
            },
        },
    }
    assert(f@ =~= framed + mode_screen(watch_inner, *watch));
    render_status_indicators(f, watch_area, watch);
    assert(f@ =~= old(f)@ + screen(size, *watch));
}

} // verus!
