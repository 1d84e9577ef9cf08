use openkit::event::{EventResult, MouseButton, MouseEventKind, PointerEvent};
use openkit::widget::action_center::{ActionCenter, ActionNotification, QuickAction};
use openkit::widget::address_bar::{display_url, looks_like_url_str, navigation_target_for, SecurityState};
use openkit::widget::app_grid::{query_found_in, AppGrid, AppItem};
use openkit::widget::avatar::Avatar;
use openkit::widget::battery_indicator::{BatteryIndicator, BatteryStatus, BatteryTint};
use openkit::widget::button::Button;
use openkit::widget::calendar::Calendar;
use openkit::widget::checkbox::Checkbox;
use openkit::widget::clock::{format_date, format_time, ClockFormat, DateFormat};
use openkit::widget::{EventContext, Widget, WidgetIds};

fn ev(kind: MouseEventKind, in_bounds: bool) -> PointerEvent {
    PointerEvent { kind, button: Some(MouseButton::Left), in_bounds }
}

#[test]
fn action_center_removes_every_notification_with_the_id() {
    let mut ids = WidgetIds::new();
    let mut ac = ActionCenter::new(&mut ids)
        .notification(ActionNotification::new("a", "Mail", "Hi"))
        .notification(ActionNotification::new("b", "Chat", "Yo"))
        .notification(ActionNotification::new("a", "Mail", "Again"));
    assert_eq!(ac.unread_count(), 3);
    ac.remove_notification("a");
    assert_eq!(ac.unread_count(), 1);
    ac.clear_notifications();
    assert_eq!(ac.unread_count(), 0);
}

#[test]
fn action_center_toggles_quick_actions_and_opens() {
    let mut ids = WidgetIds::new();
    let mut ac = ActionCenter::new(&mut ids).action(QuickAction::new("wifi", "Wi-Fi", "📶"));
    assert_eq!(ac.toggle_action("wifi"), Some(true));
    assert_eq!(ac.toggle_action("wifi"), Some(false));
    assert_eq!(ac.toggle_action("bt"), None);
    assert!(!ac.is_open());
    ac.toggle();
    assert!(ac.is_open());
    ac.close();
    assert!(!ac.is_open());
}

#[test]
fn address_bar_display_and_navigation() {
    assert_eq!(display_url("https://www.example.com/"), "example.com");
    assert_eq!(display_url("http://example.com/a/"), "example.com/a");
    assert_eq!(display_url("/"), "/");
    assert!(looks_like_url_str("example.com"));
    assert!(looks_like_url_str("about:blank"));
    assert!(!looks_like_url_str("rust book"));
    assert_eq!(navigation_target_for("example.com"), "https://example.com");
    assert_eq!(navigation_target_for("http://x.org"), "http://x.org");
    assert_eq!(navigation_target_for("rust book"), "https://duckduckgo.com/?q=rust+book");
    assert_eq!(SecurityState::Secure.icon(), "🔒");
    assert_eq!(SecurityState::default(), SecurityState::Unknown);
}

#[test]
fn app_grid_filters_case_insensitively_and_wraps_selection() {
    let mut ids = WidgetIds::new();
    let mut grid = AppGrid::new(&mut ids)
        .app(AppItem::new("ff", "Firefox").keyword("browser"))
        .app(AppItem::new("te", "Terminal"))
        .app(AppItem::new("fi", "Files").description("Browse folders"));
    assert!(AppItem::new("x", "Firefox").matches("FIRE"));
    grid.set_filter("BROWSE");
    let names: Vec<&str> = grid.filtered_apps().iter().map(|a| a.name.as_str()).collect();
    assert_eq!(names, vec!["Firefox", "Files"]);
    grid.select_next();
    assert_eq!(grid.selected_app().map(|a| a.id.as_str()), Some("ff"));
    grid.select_next();
    grid.select_next();
    assert_eq!(grid.selected_app().map(|a| a.id.as_str()), Some("ff"));
    grid.select_prev();
    assert_eq!(grid.selected_app().map(|a| a.id.as_str()), Some("fi"));
}

#[test]
fn avatar_initials_are_two_uppercased_characters() {
    let mut ids = WidgetIds::new();
    let a = Avatar::new(&mut ids).initials("john doe");
    assert_eq!(a.get_initials(), Some("JO"));
    let b = Avatar::new(&mut ids).initials("é");
    assert_eq!(b.get_initials(), Some("É"));
}

#[test]
fn avatar_hash_and_hue() {
    assert_eq!(Avatar::string_hash(""), 0);
    assert_eq!(Avatar::string_hash("a"), 97);
    assert_eq!(Avatar::string_hash("ab"), 97 * 31 + 98);
    assert_eq!(Avatar::hue_from_string("ab"), (97 * 31 + 98) % 360);
    assert!(Avatar::hue_from_string("a long name to hash") < 360);
}

#[test]
fn battery_thresholds_and_text() {
    let mut ids = WidgetIds::new();
    let b = BatteryIndicator::new(&mut ids).level(5).status(BatteryStatus::Discharging);
    assert!(b.is_critical());
    assert!(b.is_low());
    assert_eq!(b.get_color(), BatteryTint::Critical);
    assert_eq!(b.get_icon(), "🪫");
    let c = BatteryIndicator::new(&mut ids).level(150).status(BatteryStatus::Charging);
    assert!(!c.is_low());
    assert_eq!(c.get_color(), BatteryTint::Charging);
    assert_eq!(c.get_icon(), "🔌");
}

#[test]
fn checkbox_toggles_twice_back() {
    let mut ids = WidgetIds::new();
    let mut c = Checkbox::new(&mut ids).label("Accept");
    assert!(!c.is_checked());
    assert!(c.toggle());
    assert!(c.is_checked());
    assert!(c.state().checked);
    assert!(!c.toggle());
    assert!(!c.is_checked());
}

#[test]
fn checkbox_click_by_press_and_release() {
    let mut ids = WidgetIds::new();
    let mut c = Checkbox::new(&mut ids);
    let mut ctx = EventContext::new();
    let (r1, t1) = c.handle_pointer(ev(MouseEventKind::Down, true), &mut ctx);
    assert_eq!((r1, t1), (EventResult::Handled, false));
    assert_eq!(ctx.focus, Some(Widget::id(&c)));
    let (r2, t2) = c.handle_pointer(ev(MouseEventKind::Up, true), &mut ctx);
    assert_eq!((r2, t2), (EventResult::Handled, true));
    assert!(c.is_checked());
    let (r3, t3) = c.handle_pointer(ev(MouseEventKind::Up, true), &mut ctx);
    assert_eq!((r3, t3), (EventResult::Ignored, false));
}

#[test]
fn button_click_needs_release_inside() {
    let mut ids = WidgetIds::new();
    let mut b = Button::new(&mut ids, "OK");
    let mut ctx = EventContext::new();
    assert_eq!(b.get_label(), "OK");
    b.handle_pointer(ev(MouseEventKind::Down, true), &mut ctx);
    let (_, clicked) = b.handle_pointer(ev(MouseEventKind::Up, false), &mut ctx);
    assert!(!clicked);
    b.handle_pointer(ev(MouseEventKind::Down, true), &mut ctx);
    let (_, clicked) = b.handle_pointer(ev(MouseEventKind::Up, true), &mut ctx);
    assert!(clicked);
}

#[test]
fn calendar_month_navigation_round_trip() {
    let mut ids = WidgetIds::new();
    let mut cal = Calendar::new(&mut ids).date(2024, 1, 15);
    cal.prev_month();
    assert_eq!((cal.year(), cal.month()), (2023, 12));
    cal.next_month();
    assert_eq!((cal.year(), cal.month()), (2024, 1));
    let mut feb = Calendar::new(&mut ids).date(2024, 2, 1);
    assert!(feb.is_leap_year());
    assert_eq!(feb.days_in_month(), 29);
    assert_eq!(feb.month_name(), "February");
    feb.next_month();
    feb.next_month();
    feb.next_month();
    assert_eq!(feb.days_in_month(), 31);
    let c1900 = Calendar::new(&mut ids).date(1900, 2, 1);
    assert!(!c1900.is_leap_year());
    assert_eq!(c1900.days_in_month(), 28);
    let c2000 = Calendar::new(&mut ids).date(2000, 2, 1);
    assert!(c2000.is_leap_year());
}

#[test]
fn clock_time_texts() {
    assert_eq!(format_time(0, ClockFormat::TwelveHour, false), "12:00 AM");
    assert_eq!(format_time(13 * 3600 + 5 * 60 + 9, ClockFormat::TwelveHour, true), "1:05:09 PM");
    assert_eq!(format_time(12 * 3600, ClockFormat::TwelveHour, false), "12:00 PM");
    assert_eq!(format_time(9 * 3600 + 7 * 60, ClockFormat::TwentyFourHour, false), "09:07");
    assert_eq!(format_time(23 * 3600 + 59 * 60 + 59, ClockFormat::TwentyFourHour, true), "23:59:59");
}

#[test]
fn clock_date_texts() {
    assert_eq!(format_date(0, DateFormat::Short), "Jan 1");
    assert_eq!(format_date(0, DateFormat::DayOfWeek), "Thursday");
    assert_eq!(format_date(40 * 86400, DateFormat::Long), "February 10, 1970");
    assert_eq!(format_date(86400, DateFormat::Full), "Friday, January 2, 1970");
    assert_eq!(format_date(1_296_000, DateFormat::Long), "January 16, 1970");
    assert_eq!(format_date(19737 * 86400 + 3600, DateFormat::Full), "Monday, January 15, 2024");
    assert_eq!(format_date(19782 * 86400, DateFormat::Long), "February 29, 2024");
    assert_eq!(format_date(11017 * 86400, DateFormat::Full), "Wednesday, March 1, 2000");
    assert_eq!(format_date(1095 * 86400 + 86399, DateFormat::Short), "Dec 31");
    assert_eq!(format_date(47541 * 86400, DateFormat::Long), "March 1, 2100");
    assert!(format_date(u64::MAX, DateFormat::Long).ends_with(", 584554051223"));
}

#[test]
fn calendar_title_and_day_marks() {
    let mut ids = WidgetIds::new();
    let cal = Calendar::new(&mut ids)
        .date(2024, 3, 5)
        .today(2024, 3, 7)
        .event(7, openkit::widget::calendar::CalendarEvent::new("e", "Standup"));
    assert_eq!(cal.title_text(), "March 2024");
    assert_eq!(cal.day_marks(7), (true, false, true));
    assert_eq!(cal.day_marks(5), (false, true, false));
    assert_eq!(Calendar::day_cell(1), (0, 0));
    assert_eq!(Calendar::day_cell(8), (1, 0));
    assert_eq!(Calendar::day_cell(31), (4, 2));
    let bc = Calendar::new(&mut ids).date(-44, 3, 15);
    assert_eq!(bc.title_text(), "March -44");
}

#[test]
fn query_search_over_lowercased_fields() {
    let kws = vec!["web".to_string(), "browser".to_string()];
    assert!(query_found_in("fire", "firefox", None, &kws));
    assert!(query_found_in("folders", "files", Some("browse folders"), &kws));
    assert!(query_found_in("brows", "x", None, &kws));
    assert!(!query_found_in("FIRE", "firefox", None, &kws));
    assert!(!query_found_in("zzz", "firefox", Some("d"), &kws));
}
