//! Clock widget for displaying time and date.
use vstd::prelude::*;

use super::pointer::{hover_step, idle_step, leave_step, track_hover, track_leave, PointerStep};
use super::{BaseView, EventContext, Widget, WidgetBase, WidgetId, WidgetIds, succ_id};
use crate::css::{added, ClassList, WidgetState};
use crate::event::{is_left, left_button, EventResult, MouseEventKind, PointerEvent};
use crate::date::{civil_date, civil_from_days, month_abbrev, month_abbrev_str, month_name, month_name_str, weekday_name, weekday_name_str};
use vstd::arithmetic::div_mod::{lemma_add_mod_noop, lemma_div_plus_one};
use crate::text::{dec, owned, pad2, push_char, push_decimal, push_pad2, push_str};

verus! {

/// Clock format.
#[derive(Debug, Clone, Copy, PartialEq, Eq, Structural)]
pub enum ClockFormat {
    /// 12-hour format (e.g., "3:45 PM")
    TwelveHour,
    /// 24-hour format (e.g., "15:45")
    TwentyFourHour,
}

impl Default for ClockFormat {
    fn default() -> (r: Self)
        ensures
            r == ClockFormat::TwentyFourHour,
    {
        ClockFormat::TwentyFourHour
    }
}

/// Date format.
#[derive(Debug, Clone, Copy, PartialEq, Eq, Structural)]
pub enum DateFormat {
    /// Short date (e.g., "Jan 15")
    Short,
    /// Long date (e.g., "January 15, 2024")
    Long,
    /// Day of week (e.g., "Monday")
    DayOfWeek,
    /// Full (e.g., "Monday, January 15, 2024")
    Full,
}

impl Default for DateFormat {
    fn default() -> (r: Self)
        ensures
            r == DateFormat::Long,
    {
        DateFormat::Long
    }
}

/// Abstract contents of a `Clock`.
pub struct ClockView {
    pub base: BaseView,
    pub format: ClockFormat,
    pub show_seconds: bool,
    pub show_date: bool,
    pub date_format: DateFormat,
    pub cached_time: Seq<char>,
    pub cached_date: Seq<char>,
}

/// A clock widget displaying time and optionally date.
pub struct Clock {
    base: WidgetBase,
    format: ClockFormat,
    show_seconds: bool,
    show_date: bool,
    date_format: DateFormat,
    cached_time: String,
    cached_date: String,
}

impl View for Clock {
    type V = ClockView;

    closed spec fn view(&self) -> ClockView {
        ClockView {
            base: self.base@,
            format: self.format,
            show_seconds: self.show_seconds,
            show_date: self.show_date,
            date_format: self.date_format,
            cached_time: self.cached_time@,
            cached_date: self.cached_date@,
        }
    }
}

/// The time text for `secs` seconds since the epoch.
pub open spec fn time_text(secs: nat, format: ClockFormat, show_seconds: bool) -> Seq<char> {
    let hours = (secs / 3600) % 24;
    let minutes = (secs / 60) % 60;
    let seconds = secs % 60;
    match format {
        ClockFormat::TwelveHour => {
            let h: nat = if hours == 0 { 12 } else if hours <= 12 { hours } else { (hours - 12) as nat };
            let ampm = if hours < 12 { "AM"@ } else { "PM"@ };
            if show_seconds {
                dec(h) + seq![':'] + pad2(minutes) + seq![':'] + pad2(seconds) + seq![' '] + ampm
            } else {
                dec(h) + seq![':'] + pad2(minutes) + seq![' '] + ampm
            }
        },
        ClockFormat::TwentyFourHour => {
            if show_seconds {
                pad2(hours) + seq![':'] + pad2(minutes) + seq![':'] + pad2(seconds)
            } else {
                pad2(hours) + seq![':'] + pad2(minutes)
            }
        },
    }
}

/// The date text for `secs` seconds since the epoch: the calendar date
/// of that day as the format asks (`Jan 15`, `January 15, 2024`,
/// `Monday`, `Monday, January 15, 2024`).
pub open spec fn date_text(secs: nat, format: DateFormat) -> Seq<char> {
    let days = secs / 86400;
    let (y, m, d) = civil_date(days);
    let dow = weekday_name((days % 7) as int);
    match format {
        DateFormat::Short => month_abbrev(m) + seq![' '] + dec(d as nat),
        DateFormat::Long => month_name(m) + seq![' '] + dec(d as nat) + ", "@ + dec(y as nat),
        DateFormat::DayOfWeek => dow,
        DateFormat::Full => dow + ", "@ + month_name(m) + seq![' '] + dec(d as nat) + ", "@ + dec(y as nat),
    }
}

/// The days of the week from Monday to Sunday.
pub open spec fn week() -> Seq<Seq<char>> {
    seq!["Monday"@, "Tuesday"@, "Wednesday"@, "Thursday"@, "Friday"@, "Saturday"@, "Sunday"@]
}

/// 1 January 1970 was a Thursday, and a day later the weekday is the next
/// one of the week, Sunday followed by Monday.
pub proof fn lemma_weekdays_cycle(secs: nat)
    ensures
        date_text(0, DateFormat::DayOfWeek) == "Thursday"@,
        exists|k: int| 0 <= k < 7 && date_text(secs, DateFormat::DayOfWeek) == #[trigger] week()[k]
            && date_text(secs + 86400, DateFormat::DayOfWeek) == week()[(k + 1) % 7],
{
    let days = secs / 86400;
    lemma_div_plus_one(secs as int, 86400);
    assert((secs + 86400) / 86400 == days + 1);
    lemma_add_mod_noop(days as int, 1, 7);
    let w = days % 7;
    let k: int = (w as int + 3) % 7;
    assert(((w + 1) % 7 + 3) % 7 == (k + 1) % 7);
    assert(date_text(secs, DateFormat::DayOfWeek) == week()[k]);
    assert(date_text(secs + 86400, DateFormat::DayOfWeek) == week()[(k + 1) % 7]);
}

/// The time of day repeats every day: the same moment a day later reads
/// the same, in either format.
pub proof fn lemma_time_text_daily(secs: nat, format: ClockFormat, show_seconds: bool)
    ensures
        time_text(secs + 86400, format, show_seconds) == time_text(secs, format, show_seconds),
{
    let t = secs + 86400;
    assert(t / 3600 == secs / 3600 + 24) by (nonlinear_arith)
        requires t == secs + 86400;
    assert(t / 60 == secs / 60 + 1440) by (nonlinear_arith)
        requires t == secs + 86400;
    lemma_add_mod_noop((secs / 3600) as int, 24, 24);
    lemma_add_mod_noop((secs / 60) as int, 1440, 60);
    lemma_add_mod_noop(secs as int, 86400, 60);
}

/// The time text for `secs` (see `time_text`).
pub fn format_time(secs: u64, format: ClockFormat, show_seconds: bool) -> (r: String)
    ensures
        r@ == time_text(secs as nat, format, show_seconds),
{
    let hours = (secs / 3600) % 24;
    let minutes = (secs / 60) % 60;
    let seconds = secs % 60;
    let mut t = String::new();
    match format {
        ClockFormat::TwelveHour => {
            let h = if hours == 0 { 12 } else if hours <= 12 { hours } else { hours - 12 };
            push_decimal(&mut t, h);
            push_char(&mut t, ':');
            push_pad2(&mut t, minutes);
            if show_seconds {
                push_char(&mut t, ':');
                push_pad2(&mut t, seconds);
            }
            push_char(&mut t, ' ');
            push_str(&mut t, if hours < 12 { "AM" } else { "PM" });
        },
        ClockFormat::TwentyFourHour => {
            push_pad2(&mut t, hours);
            push_char(&mut t, ':');
            push_pad2(&mut t, minutes);
            if show_seconds {
                push_char(&mut t, ':');
                push_pad2(&mut t, seconds);
            }
        },
    }
    t
}

/// The date text for `secs` (see `date_text`).
pub fn format_date(secs: u64, format: DateFormat) -> (r: String)
    ensures
        r@ == date_text(secs as nat, format),
{
    let days = secs / 86400;
    let (y, m, d) = civil_from_days(days);
    let dow = weekday_name_str(days % 7);
    let mut t = String::new();
    match format {
        DateFormat::Short => {
            push_str(&mut t, month_abbrev_str(m));
            push_char(&mut t, ' ');
            push_decimal(&mut t, d);
        },
        DateFormat::Long => {
            push_str(&mut t, month_name_str(m));
            push_char(&mut t, ' ');
            push_decimal(&mut t, d);
            push_str(&mut t, ", ");
            push_decimal(&mut t, y);
        },
        DateFormat::DayOfWeek => {
            push_str(&mut t, dow);
        },
        DateFormat::Full => {
            push_str(&mut t, dow);
            push_str(&mut t, ", ");
            push_str(&mut t, month_name_str(m));
            push_char(&mut t, ' ');
            push_decimal(&mut t, d);
            push_str(&mut t, ", ");
            push_decimal(&mut t, y);
        },
    }
    t
}

/// The pointer machine of a clock: with a click handler it tracks hover;
/// a left release inside clicks it (without a redraw).
pub open spec fn clock_step(s: WidgetState, ev: PointerEvent, clickable: bool) -> PointerStep {
    match ev.kind {
        MouseEventKind::Move | MouseEventKind::Enter =>
            if ev.in_bounds && !s.hovered && !clickable { idle_step(s) } else { hover_step(s, ev.in_bounds) },
        MouseEventKind::Leave => leave_step(s),
        MouseEventKind::Up => if is_left(ev.button) && ev.in_bounds {
            PointerStep { result: EventResult::Handled, activated: clickable, ..idle_step(s) }
        } else {
            idle_step(s)
        },
        _ => idle_step(s),
    }
}

impl Clock {
    /// A 24-hour clock without seconds or date, showing `12:00`.
    pub fn new(ids: &mut WidgetIds) -> (r: Self)
        ensures
            r@.base.id == old(ids)@,
            final(ids)@ == succ_id(old(ids)@),
            r@.base.classes == seq!["clock"@],
            r@.base.element_id is None,
            r@.format == ClockFormat::TwentyFourHour,
            !r@.show_seconds,
            !r@.show_date,
            r@.date_format == DateFormat::Long,
            r@.cached_time == "12:00"@,
            r@.cached_date == "January 1"@,
    {
        Clock {
            base: WidgetBase::new(ids).with_class("clock"),
            format: ClockFormat::TwentyFourHour,
            show_seconds: false,
            show_date: false,
            date_format: DateFormat::Long,
            cached_time: owned("12:00"),
            cached_date: owned("January 1"),
        }
    }

    /// Set the time format.
    pub fn format(self, format: ClockFormat) -> (r: Self)
        ensures
            r@ == (ClockView { format, ..self@ }),
    {
        Clock { format, ..self }
    }

    /// Set whether seconds show.
    pub fn show_seconds(self, show: bool) -> (r: Self)
        ensures
            r@ == (ClockView { show_seconds: show, ..self@ }),
    {
        Clock { show_seconds: show, ..self }
    }

    /// Set whether the date shows.
    pub fn show_date(self, show: bool) -> (r: Self)
        ensures
            r@ == (ClockView { show_date: show, ..self@ }),
    {
        Clock { show_date: show, ..self }
    }

    /// Set the date format.
    pub fn date_format(self, format: DateFormat) -> (r: Self)
        ensures
            r@ == (ClockView { date_format: format, ..self@ }),
    {
        Clock { date_format: format, ..self }
    }

    /// Add a CSS class.
    pub fn class(self, class: &str) -> (r: Self)
        ensures
            r@ == (ClockView { base: BaseView { classes: added(self@.base.classes, class@), ..self@.base }, ..self@ }),
    {
        let mut c = self;
        c.base.classes.add(class);
        c
    }

    /// The displayed time text.
    pub fn time_text(&self) -> (r: &str)
        ensures
            r@ == self@.cached_time,
    {
        self.cached_time.as_str()
    }

    /// The displayed date text.
    pub fn date_text(&self) -> (r: &str)
        ensures
            r@ == self@.cached_date,
    {
        self.cached_date.as_str()
    }

    /// Set the displayed time and date for `secs` seconds since the epoch.
    pub fn update_from_secs(&mut self, secs: u64)
        ensures
            final(self)@ == (ClockView {
                cached_time: time_text(secs as nat, old(self)@.format, old(self)@.show_seconds),
                cached_date: date_text(secs as nat, old(self)@.date_format),
                ..old(self)@
            }),
    {
        self.cached_time = format_time(secs, self.format, self.show_seconds);
        self.cached_date = format_date(secs, self.date_format);
    }

    /// Update the displayed time from the system clock (call periodically);
    /// nothing changes when the clock reads before the epoch.
    pub fn update(&mut self)
        ensures
            final(self)@ == old(self)@ || exists|secs: u64| final(self)@ == (ClockView {
                cached_time: #[trigger] time_text(secs as nat, old(self)@.format, old(self)@.show_seconds),
                cached_date: date_text(secs as nat, old(self)@.date_format),
                ..old(self)@
            }),
    {
        match crate::time::unix_time_nanos() {
            Some(n) => {
                let secs = crate::time::whole_seconds(n);
                self.update_from_secs(secs);
            },
            None => {},
        }
    }

    /// Handles a pointer event; `clickable` tells whether a click handler is
    /// set. Returns the event result and whether the clock was clicked.
    pub fn handle_pointer(&mut self, ev: PointerEvent, clickable: bool, ctx: &mut EventContext) -> (r: (EventResult, bool))
        ensures
            ({
                let step = clock_step(old(self)@.base.state, ev, clickable);
                &&& final(self)@ == (ClockView { base: BaseView { state: step.state, ..old(self)@.base }, ..old(self)@ })
                &&& r == (step.result, step.activated)
                &&& final(ctx).focus == old(ctx).focus
                &&& final(ctx).should_redraw == (old(ctx).should_redraw || step.redraw)
            }),
    {
        match ev.kind {
            MouseEventKind::Move | MouseEventKind::Enter => {
                if ev.in_bounds && !self.base.state.hovered && !clickable {
                } else {
                    track_hover(&mut self.base, ev.in_bounds, ctx);
                }
                (EventResult::Ignored, false)
            },
            MouseEventKind::Leave => {
                track_leave(&mut self.base, ctx);
                (EventResult::Ignored, false)
            },
            MouseEventKind::Up => {
                if left_button(ev.button) && ev.in_bounds {
                    (EventResult::Handled, clickable)
                } else {
                    (EventResult::Ignored, false)
                }
            },
            _ => (EventResult::Ignored, false),
        }
    }
}

impl Widget for Clock {
    fn id(&self) -> (r: WidgetId)
        ensures
            r == self@.base.id,
    {
        self.base.id
    }

    fn widget_type_name(&self) -> (r: &'static str)
        ensures
            r@ == "clock"@,
    {
        "clock"
    }

    fn element_id(&self) -> (r: Option<&str>)
        ensures
            match r {
                Some(s) => self@.base.element_id == Some(s@),
                None => self@.base.element_id is None,
            },
    {
        self.base.element_id_str()
    }

    fn classes(&self) -> (r: &ClassList)
        ensures
            r@ == self@.base.classes,
    {
        &self.base.classes
    }

    fn state(&self) -> (r: WidgetState)
        ensures
            r == self@.base.state,
    {
        self.base.state
    }
}

} // verus!
