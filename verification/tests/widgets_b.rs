use openkit::event::{EventResult, Key, KeyEvent, KeyEventKind, Modifiers, MouseButton, MouseEventKind, PointerEvent};
use openkit::widget::chat_window::{clock_text_of, id_from_nanos, ChatMessage, ChatWindow, MessageRole};
use openkit::widget::connection_card::{AuthMethod, ConnectionStats, RateUnit, SizeUnit, VpnConnectionStatus, ConnectionCard};
use openkit::widget::dropdown::{Dropdown, DropdownOption};
use openkit::widget::find_bar::{FindBar, FindBarAction, FindBarHit};
use openkit::widget::label::Label;
use openkit::widget::navigation_bar::NavigationBar;
use openkit::widget::notification::{Notification, NotificationCommand};
use openkit::widget::{EventContext, WidgetIds};

#[test]
fn chat_ids_and_clock_texts() {
    assert_eq!(id_from_nanos(0), "0");
    assert_eq!(id_from_nanos(255), "ff");
    assert_eq!(id_from_nanos(0x1a2b), "1a2b");
    assert_eq!(clock_text_of(0), "00:00");
    assert_eq!(clock_text_of(86400 + 13 * 3600 + 7 * 60 + 59), "13:07");
}

#[test]
fn chat_messages_are_fresh() {
    let m = ChatMessage::user("hi");
    assert_eq!(m.role, MessageRole::User);
    assert_eq!(m.content, "hi");
    assert!(!m.is_streaming);
    assert!(m.id.chars().all(|c| c.is_ascii_hexdigit()));
    assert_eq!(m.timestamp.len(), 5);
    let s = ChatMessage::assistant_streaming();
    assert!(s.is_streaming);
    assert_eq!(s.content, "");
}

#[test]
fn chat_streaming_appends_and_completes() {
    let mut ids = WidgetIds::new();
    let mut w = ChatWindow::new(&mut ids);
    w.add_message(ChatMessage::assistant_streaming());
    w.update_streaming("Hel");
    w.update_streaming("lo");
    assert_eq!(w.messages()[0].content, "Hello");
    w.complete_streaming();
    assert!(!w.messages()[0].is_streaming);
    w.update_streaming("!");
    assert_eq!(w.messages()[0].content, "Hello");
    w.clear();
    assert!(w.messages().is_empty());
}

#[test]
fn chat_does_not_send_blank_input() {
    let mut ids = WidgetIds::new();
    let mut w = ChatWindow::new(&mut ids);
    assert_eq!(w.send_message(), None);
    assert!(w.messages().is_empty());
}

#[test]
fn connection_stats_formats() {
    assert_eq!(ConnectionStats::format_duration(59), "00:59");
    assert_eq!(ConnectionStats::format_duration(3599), "59:59");
    assert_eq!(ConnectionStats::format_duration(3600 + 61), "01:01:01");
    assert_eq!(ConnectionStats::size_unit(1023), SizeUnit::B);
    assert_eq!(ConnectionStats::size_unit(1024), SizeUnit::KB);
    assert_eq!(ConnectionStats::size_unit(1024 * 1024 * 1024), SizeUnit::GB);
    assert_eq!(ConnectionStats::rate_unit(124), (992, RateUnit::Bps));
    assert_eq!(ConnectionStats::rate_unit(125), (1000, RateUnit::Kbps));
    assert_eq!(ConnectionStats::rate_unit(125_000_000), (1_000_000_000, RateUnit::Gbps));
}

#[test]
fn connection_card_status() {
    let mut ids = WidgetIds::new();
    let mut c = ConnectionCard::new(&mut ids);
    assert!(!c.is_connected());
    c.set_status(VpnConnectionStatus::Authenticating);
    assert!(c.is_connecting());
    c.set_status(VpnConnectionStatus::Connected);
    assert!(c.is_connected());
    assert!(!c.is_connecting());
    assert!(AuthMethod::UsernamePassword.requires_password());
}

#[test]
fn dropdown_select_only_enabled_values() {
    let mut ids = WidgetIds::new();
    let mut d = Dropdown::new(&mut ids)
        .option(DropdownOption::new("a", "Apple"))
        .option(DropdownOption::new("b", "Banana").disabled(true));
    assert_eq!(d.value(), None);
    assert_eq!(d.select("b"), None);
    assert_eq!(d.select("a"), Some("a".to_string()));
    assert_eq!(d.value(), Some("a"));
    assert_eq!(d.select("zzz"), None);
    assert_eq!(d.value(), Some("a"));
}

#[test]
fn dropdown_pointer_opens_and_picks() {
    let mut ids = WidgetIds::new();
    let mut d = Dropdown::new(&mut ids)
        .option(DropdownOption::new("a", "Apple"))
        .option(DropdownOption::new("b", "Banana").disabled(true));
    let mut ctx = EventContext::new();
    let down = PointerEvent { kind: MouseEventKind::Down, button: Some(MouseButton::Left), in_bounds: true };
    let up = PointerEvent { kind: MouseEventKind::Up, ..down };
    assert_eq!(d.handle_pointer(down, true, false, 0, &mut ctx), (EventResult::Handled, None));
    assert_eq!(d.handle_pointer(up, true, false, 0, &mut ctx), (EventResult::Handled, None));
    assert!(d.is_open());
    assert_eq!(d.handle_pointer(up, false, true, 1, &mut ctx), (EventResult::Ignored, None));
    assert!(d.is_open());
    assert_eq!(d.handle_pointer(up, false, true, 0, &mut ctx), (EventResult::Handled, Some("a".to_string())));
    assert!(!d.is_open());
    assert_eq!(d.value(), Some("a"));
}

#[test]
fn dropdown_release_outside_closes() {
    let mut ids = WidgetIds::new();
    let mut d = Dropdown::new(&mut ids).option(DropdownOption::new("a", "Apple"));
    let mut ctx = EventContext::new();
    d.open();
    let up = PointerEvent { kind: MouseEventKind::Up, button: Some(MouseButton::Left), in_bounds: false };
    assert_eq!(d.handle_pointer(up, false, false, 0, &mut ctx), (EventResult::Ignored, None));
    assert!(!d.is_open());
}

#[test]
fn find_bar_status_and_buttons() {
    let mut ids = WidgetIds::new();
    let empty = FindBar::new(&mut ids);
    assert_eq!(empty.match_status(), "");
    let none = FindBar::new(&mut ids).query("x");
    assert_eq!(none.match_status(), "No matches");
    let mut some = FindBar::new(&mut ids).query("x").match_count(5).current_match(2);
    assert_eq!(some.match_status(), "2 of 5");
    let mut ctx = EventContext::new();
    assert_eq!(some.handle_press(FindBarHit::Close, &mut ctx).1, FindBarAction::Close);
    let k = KeyEvent { kind: KeyEventKind::Down, key: Key::Enter, modifiers: Modifiers::none(), text: None };
    let _ = some.handle_key(&k, &mut ctx);
}

#[test]
fn label_sizes_from_classes() {
    let mut ids = WidgetIds::new();
    assert_eq!(Label::new(&mut ids, "t").font_size_for_class(), None);
    assert_eq!(Label::new(&mut ids, "t").class("title").font_size_for_class(), Some(30));
    assert_eq!(Label::new(&mut ids, "t").class("caption").font_size_for_class(), Some(12));
    assert_eq!(Label::new(&mut ids, "t").class("muted").opacity_for_class(), 70);
    assert_eq!(Label::new(&mut ids, "t").opacity_for_class(), 100);
    let mut l = Label::new(&mut ids, "a");
    l.set_text("b");
    assert_eq!(l.get_text(), "b");
}

#[test]
fn navigation_bar_width() {
    let mut ids = WidgetIds::new();
    assert_eq!(NavigationBar::new(&mut ids).show_home_button(false).get_width(), 108);
    assert_eq!(NavigationBar::new(&mut ids).show_home_button(true).get_width(), 144);
}

#[test]
fn notification_close_wins_over_click() {
    let mut ids = WidgetIds::new();
    let mut n = Notification::new(&mut ids).title("T").action("ok", "OK");
    assert_eq!(n.action_count(), 1);
    let mut ctx = EventContext::new();
    let (r, c) = n.handle_pointer(MouseEventKind::Up, Some(MouseButton::Left), true, true, Some(0), &mut ctx);
    assert_eq!(r, EventResult::Handled);
    assert!(matches!(c, NotificationCommand::Close));
}

#[test]
fn label_typography_classes() {
    let mut ids = WidgetIds::new();
    assert_eq!(Label::new(&mut ids, "Welcome").class("hero-title").font_size_for_class(), Some(36));
    let sub = Label::new(&mut ids, "A modern UI toolkit").class("subtitle");
    assert_eq!(sub.font_size_for_class(), Some(14));
    assert_eq!(sub.opacity_for_class(), 70);
}

#[test]
fn chat_title_and_input_prompt() {
    let mut ids = WidgetIds::new();
    let w = ChatWindow::new(&mut ids);
    assert_eq!(w.title_text(), "AI Chat - No Provider");
    assert_eq!(w.shown_input(), "Type a message...");
    let w2 = ChatWindow::new(&mut ids).provider(openkit::widget::chat_window::AiProvider::ollama("llama3"));
    assert_eq!(w2.title_text(), "AI Chat - Ollama (llama3)");
}

#[test]
fn dropdown_toggle_twice_closes() {
    let mut ids = WidgetIds::new();
    let mut d = Dropdown::new(&mut ids).option(DropdownOption::new("a", "Apple")).selected("a");
    d.toggle();
    assert!(d.is_open());
    d.toggle();
    assert!(!d.is_open());
    assert_eq!(d.value(), Some("a"));
}

#[test]
fn dropdown_enter_reports_hovered_choice() {
    let mut ids = WidgetIds::new();
    let mut d = Dropdown::new(&mut ids)
        .option(DropdownOption::new("a", "Apple"))
        .option(DropdownOption::new("b", "Banana").disabled(true));
    let mut ctx = EventContext::new();
    let down = PointerEvent { kind: MouseEventKind::Down, button: Some(MouseButton::Left), in_bounds: true };
    d.handle_pointer(down, true, false, 0, &mut ctx);
    let k = |key| KeyEvent { kind: KeyEventKind::Down, key, modifiers: Modifiers::none(), text: None };
    assert_eq!(d.handle_key(&k(Key::Enter), &mut ctx), (EventResult::Handled, None));
    assert!(d.is_open());
    assert_eq!(d.handle_key(&k(Key::Down), &mut ctx), (EventResult::Handled, None));
    assert_eq!(d.handle_key(&k(Key::Down), &mut ctx), (EventResult::Handled, None));
    assert_eq!(d.hovered_index(), Some(1));
    assert_eq!(d.handle_key(&k(Key::Enter), &mut ctx), (EventResult::Handled, None));
    assert_eq!(d.handle_key(&k(Key::Up), &mut ctx), (EventResult::Handled, None));
    assert_eq!(d.handle_key(&k(Key::Space), &mut ctx), (EventResult::Handled, Some("a".to_string())));
    assert!(!d.is_open());
    assert_eq!(d.value(), Some("a"));
}
