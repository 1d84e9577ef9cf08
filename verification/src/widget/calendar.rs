//! Calendar widget: a month view with selectable days and events.
use vstd::prelude::*;

use std::collections::HashMap;

use super::{BaseView, Widget, WidgetBase, WidgetId, WidgetIds, succ_id};
use crate::css::{added, ClassList, WidgetState};
use crate::text::{dec, owned, push_char, push_decimal, push_str};

verus! {

/// An event shown on a calendar day.
#[derive(Debug)]
pub struct CalendarEvent {
    pub id: String,
    pub title: String,
    pub start_time: Option<(u8, u8)>,
    pub end_time: Option<(u8, u8)>,
    pub all_day: bool,
}

impl CalendarEvent {
    /// An event with no time set.
    pub fn new(id: &str, title: &str) -> (r: Self)
        ensures
            r.id@ == id@,
            r.title@ == title@,
            r.start_time is None,
            r.end_time is None,
            !r.all_day,
    {
        CalendarEvent { id: owned(id), title: owned(title), start_time: None, end_time: None, all_day: false }
    }

    /// Set the start and end times, as (hour, minute).
    pub fn time(self, start: (u8, u8), end: (u8, u8)) -> (r: Self)
        ensures
            r == (CalendarEvent { start_time: Some(start), end_time: Some(end), ..self }),
    {
        CalendarEvent { start_time: Some(start), end_time: Some(end), ..self }
    }

    /// Make the event last all day; its times are cleared.
    pub fn all_day(self) -> (r: Self)
        ensures
            r == (CalendarEvent { all_day: true, start_time: None, end_time: None, ..self }),
    {
        CalendarEvent { all_day: true, start_time: None, end_time: None, ..self }
    }
}

/// Abstract contents of a `Calendar`.
pub struct CalendarView {
    pub base: BaseView,
    pub year: i32,
    pub month: u8,
    pub selected_day: Option<u8>,
    pub today: (i32, u8, u8),
    pub events: Map<u8, Seq<CalendarEvent>>,
    pub is_open: bool,
    pub show_week_numbers: bool,
    pub first_day_of_week: u8,
}

/// Calendar widget.
pub struct Calendar {
    base: WidgetBase,
    year: i32,
    month: u8,
    selected_day: Option<u8>,
    today: (i32, u8, u8),
    events: HashMap<u8, Vec<CalendarEvent>>,
    is_open: bool,
    show_week_numbers: bool,
    first_day_of_week: u8,
}

/// The events of each day, as sequences.
pub open spec fn events_view(m: Map<u8, Vec<CalendarEvent>>) -> Map<u8, Seq<CalendarEvent>> {
    m.map_values(|v: Vec<CalendarEvent>| v@)
}

impl View for Calendar {
    type V = CalendarView;

    closed spec fn view(&self) -> CalendarView {
        CalendarView {
            base: self.base@,
            year: self.year,
            month: self.month,
            selected_day: self.selected_day,
            today: self.today,
            events: events_view(self.events@),
            is_open: self.is_open,
            show_week_numbers: self.show_week_numbers,
            first_day_of_week: self.first_day_of_week,
        }
    }
}

/// Gregorian leap years.
pub open spec fn leap_year(y: int) -> bool {
    (y % 4 == 0 && y % 100 != 0) || y % 400 == 0
}

/// Whether `y` is a leap year.
fn leap(y: i32) -> (r: bool)
    ensures
        r == leap_year(y as int),
{
    let a = y % 4 == 0;
    let b = y % 100 != 0;
    let c = y % 400 == 0;
    (a && b) || c
}

/// The decimal rendering of a signed number.
pub open spec fn signed_dec(n: int) -> Seq<char> {
    if n < 0 { seq!['-'] + dec((-n) as nat) } else { dec(n as nat) }
}

/// The number of days of a month (30 for a month number out of range).
pub open spec fn month_days(y: int, m: int) -> int {
    if m == 1 || m == 3 || m == 5 || m == 7 || m == 8 || m == 10 || m == 12 {
        31
    } else if m == 4 || m == 6 || m == 9 || m == 11 {
        30
    } else if m == 2 {
        if leap_year(y) { 29 } else { 28 }
    } else {
        30
    }
}

/// The English name of a month ("Unknown" out of range).
pub open spec fn month_name_of(m: int) -> Seq<char> {
    if m == 1 { "January"@ }
    else if m == 2 { "February"@ }
    else if m == 3 { "March"@ }
    else if m == 4 { "April"@ }
    else if m == 5 { "May"@ }
    else if m == 6 { "June"@ }
    else if m == 7 { "July"@ }
    else if m == 8 { "August"@ }
    else if m == 9 { "September"@ }
    else if m == 10 { "October"@ }
    else if m == 11 { "November"@ }
    else if m == 12 { "December"@ }
    else { "Unknown"@ }
}

/// The month after (year, month).
pub open spec fn month_after(y: int, m: int) -> (int, int) {
    if m == 12 { (y + 1, 1) } else { (y, m + 1) }
}

/// The month before (year, month).
pub open spec fn month_before(y: int, m: int) -> (int, int) {
    if m == 1 { (y - 1, 12) } else { (y, m - 1) }
}

/// `x` clamped to `[lo, hi]`.
pub open spec fn clamp_u8(x: u8, lo: u8, hi: u8) -> u8 {
    if x < lo { lo } else if x > hi { hi } else { x }
}

impl Calendar {
    /// A closed calendar on January 2025 with nothing selected.
    pub fn new(ids: &mut WidgetIds) -> (r: Self)
        ensures
            r@.base.id == old(ids)@,
            final(ids)@ == succ_id(old(ids)@),
            r@.base.classes == seq!["calendar"@],
            r@.base.element_id is None,
            r@.year == 2025,
            r@.month == 1,
            r@.selected_day is None,
            r@.today == (2025i32, 1u8, 1u8),
            r@.events == Map::<u8, Seq<CalendarEvent>>::empty(),
            !r@.is_open,
            !r@.show_week_numbers,
            r@.first_day_of_week == 0,
    {
        let r = Calendar {
            base: WidgetBase::new(ids).with_class("calendar"),
            year: 2025,
            month: 1,
            selected_day: None,
            today: (2025, 1, 1),
            events: HashMap::new(),
            is_open: false,
            show_week_numbers: false,
            first_day_of_week: 0,
        };
        assert(events_view(r.events@) =~= Map::<u8, Seq<CalendarEvent>>::empty());
        r
    }

    /// Show a date: the month is clamped to 1..=12 and the selected day to 1..=31.
    pub fn date(self, year: i32, month: u8, day: u8) -> (r: Self)
        ensures
            r@ == (CalendarView {
                year,
                month: clamp_u8(month, 1, 12),
                selected_day: Some(clamp_u8(day, 1, 31)),
                ..self@
            }),
    {
        let m = if month < 1 { 1 } else if month > 12 { 12 } else { month };
        let d = if day < 1 { 1 } else if day > 31 { 31 } else { day };
        Calendar { year, month: m, selected_day: Some(d), ..self }
    }

    /// Set today's date.
    pub fn today(self, year: i32, month: u8, day: u8) -> (r: Self)
        ensures
            r@ == (CalendarView { today: (year, month, day), ..self@ }),
    {
        Calendar { today: (year, month, day), ..self }
    }

    /// Set whether week numbers show.
    pub fn show_week_numbers(self, show: bool) -> (r: Self)
        ensures
            r@ == (CalendarView { show_week_numbers: show, ..self@ }),
    {
        Calendar { show_week_numbers: show, ..self }
    }

    /// Set the first day of the week (0 = Sunday), at most 6.
    pub fn first_day_of_week(self, day: u8) -> (r: Self)
        ensures
            r@ == (CalendarView { first_day_of_week: if day <= 6 { day } else { 6 }, ..self@ }),
    {
        Calendar { first_day_of_week: if day <= 6 { day } else { 6 }, ..self }
    }

    /// Add an event on a day of the shown month, after that day's other events.
    pub fn event(self, day: u8, event: CalendarEvent) -> (r: Self)
        ensures
            r@ == (CalendarView {
                events: self@.events.insert(
                    day,
                    (if self@.events.contains_key(day) { self@.events[day] } else { Seq::empty() }).push(event),
                ),
                ..self@
            }),
    {
        let mut c = self;
        let ghost before = c.events@;
        let mut list = match c.events.remove(&day) {
            Some(l) => l,
            None => Vec::new(),
        };
        list.push(event);
        c.events.insert(day, list);
        assert(events_view(c.events@) =~= events_view(before).insert(
            day,
            (if events_view(before).contains_key(day) { events_view(before)[day] } else { Seq::empty() }).push(event),
        ));
        c
    }

    /// Go to the previous month, wrapping from January to December of the
    /// year before.
    pub fn prev_month(&mut self)
        requires
            old(self)@.month == 1 ==> old(self)@.year > i32::MIN,
            old(self)@.month >= 1,
        ensures
            (final(self)@.year as int, final(self)@.month as int)
                == month_before(old(self)@.year as int, old(self)@.month as int),
            final(self)@ == (CalendarView { year: final(self)@.year, month: final(self)@.month, ..old(self)@ }),
    {
        if self.month == 1 {
            self.month = 12;
            self.year = self.year - 1;
        } else {
            self.month = self.month - 1;
        }
    }

    /// Go to the next month, wrapping from December to January of the next year.
    pub fn next_month(&mut self)
        requires
            old(self)@.month == 12 ==> old(self)@.year < i32::MAX,
            old(self)@.month < 255,
        ensures
            (final(self)@.year as int, final(self)@.month as int)
                == month_after(old(self)@.year as int, old(self)@.month as int),
            final(self)@ == (CalendarView { year: final(self)@.year, month: final(self)@.month, ..old(self)@ }),
    {
        if self.month == 12 {
            self.month = 1;
            self.year = self.year + 1;
        } else {
            self.month = self.month + 1;
        }
    }

    /// Show today's month and select today.
    pub fn go_to_today(&mut self)
        ensures
            final(self)@ == (CalendarView {
                year: old(self)@.today.0,
                month: old(self)@.today.1,
                selected_day: Some(old(self)@.today.2),
                ..old(self)@
            }),
    {
        self.year = self.today.0;
        self.month = self.today.1;
        self.selected_day = Some(self.today.2);
    }

    /// Select a day of the shown month.
    pub fn select_day(&mut self, day: u8)
        ensures
            final(self)@ == (CalendarView { selected_day: Some(day), ..old(self)@ }),
    {
        self.selected_day = Some(day);
    }

    /// Open the calendar popup.
    pub fn open(&mut self)
        ensures
            final(self)@ == (CalendarView { is_open: true, ..old(self)@ }),
    {
        self.is_open = true;
    }

    /// Close the calendar popup.
    pub fn close(&mut self)
        ensures
            final(self)@ == (CalendarView { is_open: false, ..old(self)@ }),
    {
        self.is_open = false;
    }

    /// Open the popup if closed, close it if open.
    pub fn toggle(&mut self)
        ensures
            final(self)@ == (CalendarView { is_open: !old(self)@.is_open, ..old(self)@ }),
    {
        self.is_open = !self.is_open;
    }

    /// Whether the popup is open.
    pub fn is_open(&self) -> (r: bool)
        ensures
            r == self@.is_open,
    {
        self.is_open
    }

    /// The shown year.
    pub fn year(&self) -> (r: i32)
        ensures
            r == self@.year,
    {
        self.year
    }

    /// The shown month (1 = January).
    pub fn month(&self) -> (r: u8)
        ensures
            r == self@.month,
    {
        self.month
    }

    /// The selected day, if any.
    pub fn selected_day(&self) -> (r: Option<u8>)
        ensures
            r == self@.selected_day,
    {
        self.selected_day
    }

    /// The number of days of the shown month.
    pub fn days_in_month(&self) -> (r: u8)
        ensures
            r == month_days(self@.year as int, self@.month as int),
    {
        match self.month {
            1 | 3 | 5 | 7 | 8 | 10 | 12 => 31,
            4 | 6 | 9 | 11 => 30,
            2 => if self.is_leap_year() { 29 } else { 28 },
            _ => 30,
        }
    }

    /// Whether the shown year is a leap year.
    pub fn is_leap_year(&self) -> (r: bool)
        ensures
            r == leap_year(self@.year as int),
    {
        leap(self.year)
    }

    /// What a day cell shows besides its number: whether it is today,
    /// whether it is selected, and whether it has events.
    pub fn day_marks(&self, day: u8) -> (r: (bool, bool, bool))
        ensures
            r == (
                self@.year == self@.today.0 && self@.month == self@.today.1 && day == self@.today.2,
                self@.selected_day == Some(day),
                self@.events.contains_key(day) && self@.events[day].len() > 0,
            ),
    {
        let is_today = self.year == self.today.0 && self.month == self.today.1 && day == self.today.2;
        let is_selected = match self.selected_day {
            Some(d) => d == day,
            None => false,
        };
        let has_events = match self.events.get(&day) {
            Some(list) => list.len() > 0,
            None => false,
        };
        (is_today, is_selected, has_events)
    }

    /// The grid cell (row, column) of a day: seven days to a row, the
    /// first day in the first cell.
    pub fn day_cell(day: u8) -> (r: (u8, u8))
        requires
            day >= 1,
        ensures
            r == (((day - 1) / 7) as u8, ((day - 1) % 7) as u8),
    {
        ((day - 1) / 7, (day - 1) % 7)
    }

    /// The title: the month's name, a space and the year.
    pub fn title_text(&self) -> (r: String)
        ensures
            r@ == month_name_of(self@.month as int) + seq![' '] + signed_dec(self@.year as int),
    {
        let mut t = String::new();
        push_str(&mut t, self.month_name());
        push_char(&mut t, ' ');
        if self.year < 0 {
            push_char(&mut t, '-');
            let magnitude: i64 = -(self.year as i64);
            push_decimal(&mut t, magnitude as u64);
        } else {
            push_decimal(&mut t, self.year as u64);
        }
        t
    }

    /// The name of the shown month.
    pub fn month_name(&self) -> (r: &'static str)
        ensures
            r@ == month_name_of(self@.month as int),
    {
        match self.month {
            1 => "January",
            2 => "February",
            3 => "March",
            4 => "April",
            5 => "May",
            6 => "June",
            7 => "July",
            8 => "August",
            9 => "September",
            10 => "October",
            11 => "November",
            12 => "December",
            _ => "Unknown",
        }
    }

    /// Add a CSS class.
    pub fn class(self, class: &str) -> (r: Self)
        ensures
            r@ == (CalendarView { base: BaseView { classes: added(self@.base.classes, class@), ..self@.base }, ..self@ }),
    {
        let mut c = self;
        c.base.classes.add(class);
        c
    }

    /// Set the element ID.
    pub fn id(self, id: &str) -> (r: Self)
        ensures
            r@ == (CalendarView { base: BaseView { element_id: Some(id@), ..self@.base }, ..self@ }),
    {
        let mut c = self;
        c.base.element_id = Some(owned(id));
        c
    }
}

/// Going forward a month and back again returns to the same month, and so
/// does going back and then forward, for every month number in 1..=12.
pub proof fn lemma_month_round_trip(y: int, m: int)
    requires
        1 <= m <= 12,
    ensures
        month_before(month_after(y, m).0, month_after(y, m).1) == (y, m),
        month_after(month_before(y, m).0, month_before(y, m).1) == (y, m),
        1 <= month_after(y, m).1 <= 12,
        1 <= month_before(y, m).1 <= 12,
{
}

/// Every month has between 28 and 31 days, and February has 29 exactly in
/// leap years.
pub proof fn lemma_month_days_range(y: int, m: int)
    ensures
        28 <= month_days(y, m) <= 31,
        month_days(y, 2) == 29 <==> leap_year(y),
{
}

/// January to December have 31, 28 (29 in a leap year), 31, 30, 31, 30,
/// 31, 31, 30, 31, 30 and 31 days, whatever the year; together they make
/// 365 days, or 366 in a leap year.
pub proof fn lemma_month_lengths(y: int)
    ensures
        month_days(y, 1) == 31,
        month_days(y, 2) == (if leap_year(y) { 29int } else { 28int }),
        month_days(y, 3) == 31,
        month_days(y, 4) == 30,
        month_days(y, 5) == 31,
        month_days(y, 6) == 30,
        month_days(y, 7) == 31,
        month_days(y, 8) == 31,
        month_days(y, 9) == 30,
        month_days(y, 10) == 31,
        month_days(y, 11) == 30,
        month_days(y, 12) == 31,
        month_days(y, 1) + month_days(y, 2) + month_days(y, 3) + month_days(y, 4) + month_days(y, 5)
            + month_days(y, 6) + month_days(y, 7) + month_days(y, 8) + month_days(y, 9) + month_days(y, 10)
            + month_days(y, 11) + month_days(y, 12) == (if leap_year(y) { 366int } else { 365int }),
{
}

impl Widget for Calendar {
    fn id(&self) -> (r: WidgetId)
        ensures
            r == self@.base.id,
    {
        self.base.id
    }

    fn widget_type_name(&self) -> (r: &'static str)
        ensures
            r@ == "calendar"@,
    {
        "calendar"
    }

    fn element_id(&self) -> (r: Option<&str>)
        ensures
            match r {
                Some(s) => self@.base.element_id == Some(s@),
                None => self@.base.element_id is None,
            },
    {
        self.base.element_id_str()
    }

    fn classes(&self) -> (r: &ClassList)
        ensures
            r@ == self@.base.classes,
    {
        &self.base.classes
    }

    fn state(&self) -> (r: WidgetState)
        ensures
            r == self@.base.state,
    {
        self.base.state
    }
}

} // verus!
