use openkit::event::{EventResult, Key, KeyEvent, KeyEventKind, Modifiers, MouseButton, MouseEventKind, PointerEvent};
use openkit::widget::password_field::PasswordField;
use openkit::widget::search_bar::{SearchBar, SearchSuggestion};
use openkit::widget::switch::{ToggleSwitch, ToggleSwitchSize};
use openkit::widget::textfield::{TextField, TextFieldAction};
use openkit::widget::{EventContext, Widget, WidgetIds};

fn key(k: Key, text: Option<&str>) -> KeyEvent {
    KeyEvent { kind: KeyEventKind::Down, key: k, modifiers: Modifiers::none(), text: text.map(|t| t.to_string()) }
}

fn press(in_bounds: bool) -> PointerEvent {
    PointerEvent { kind: MouseEventKind::Down, button: Some(MouseButton::Left), in_bounds }
}

fn focused_field(ids: &mut WidgetIds, value: &str) -> (TextField, EventContext) {
    let mut f = TextField::new(ids).value(value);
    let mut ctx = EventContext::new();
    f.handle_pointer(press(true), 1000, &mut ctx);
    (f, ctx)
}

#[test]
fn textfield_value_puts_cursor_at_end() {
    let mut ids = WidgetIds::new();
    let f = TextField::new(&mut ids).value("héllo").placeholder("Name");
    assert_eq!(f.get_value(), "héllo");
    assert_eq!(f.cursor_position(), 5);
    assert_eq!(f.get_placeholder(), "Name");
    assert_eq!(f.widget_type_name(), "textfield");
}

#[test]
fn textfield_click_places_cursor_at_most_at_end() {
    let mut ids = WidgetIds::new();
    let mut f = TextField::new(&mut ids).value("abc");
    let mut ctx = EventContext::new();
    assert_eq!(f.handle_pointer(press(true), 1, &mut ctx), EventResult::Handled);
    assert_eq!(f.cursor_position(), 1);
    assert!(f.state().focused);
    assert_eq!(ctx.focus, Some(Widget::id(&f)));
    f.handle_pointer(press(true), 99, &mut ctx);
    assert_eq!(f.cursor_position(), 3);
    assert_eq!(f.handle_pointer(press(false), 0, &mut ctx), EventResult::Ignored);
    assert!(!f.state().focused);
    assert_eq!(ctx.focus, None);
}

#[test]
fn textfield_typing_and_editing() {
    let mut ids = WidgetIds::new();
    let (mut f, mut ctx) = focused_field(&mut ids, "");
    assert_eq!(f.handle_key(&key(Key::Other, Some("ab")), &mut ctx), (EventResult::Handled, TextFieldAction::Changed));
    f.handle_key(&key(Key::Left, None), &mut ctx);
    f.handle_key(&key(Key::Other, Some("X")), &mut ctx);
    assert_eq!(f.get_value(), "aXb");
    assert_eq!(f.handle_key(&key(Key::Backspace, None), &mut ctx), (EventResult::Handled, TextFieldAction::Changed));
    assert_eq!(f.get_value(), "ab");
    assert_eq!(f.handle_key(&key(Key::Home, None), &mut ctx).0, EventResult::Handled);
    assert_eq!(f.handle_key(&key(Key::Backspace, None), &mut ctx), (EventResult::Handled, TextFieldAction::Nothing));
    assert_eq!(f.handle_key(&key(Key::Delete, None), &mut ctx), (EventResult::Handled, TextFieldAction::Changed));
    assert_eq!(f.get_value(), "b");
    f.handle_key(&key(Key::End, None), &mut ctx);
    assert_eq!(f.handle_key(&key(Key::Delete, None), &mut ctx), (EventResult::Handled, TextFieldAction::Nothing));
    assert_eq!(f.handle_key(&key(Key::Enter, None), &mut ctx), (EventResult::Handled, TextFieldAction::Submit));
}

#[test]
fn textfield_ignores_text_with_control_or_alt_and_unfocused_keys() {
    let mut ids = WidgetIds::new();
    let (mut f, mut ctx) = focused_field(&mut ids, "a");
    let mut k = key(Key::Other, Some("c"));
    k.modifiers.control = true;
    assert_eq!(f.handle_key(&k, &mut ctx), (EventResult::Ignored, TextFieldAction::Nothing));
    assert_eq!(f.handle_key(&key(Key::Other, Some("")), &mut ctx), (EventResult::Ignored, TextFieldAction::Nothing));
    assert_eq!(f.get_value(), "a");
    let mut g = TextField::new(&mut ids);
    assert_eq!(g.handle_key(&key(Key::Other, Some("x")), &mut ctx), (EventResult::Ignored, TextFieldAction::Nothing));
    assert_eq!(g.get_value(), "");
}

#[test]
fn textfield_set_value_insert_and_delete() {
    let mut ids = WidgetIds::new();
    let mut f = TextField::new(&mut ids);
    f.set_value("hello");
    assert_eq!(f.cursor_position(), 5);
    f.insert_text(" world");
    assert_eq!(f.get_value(), "hello world");
    assert!(f.backspace());
    assert_eq!(f.get_value(), "hello worl");
    assert!(!f.delete());
}

#[test]
fn password_field_masks_one_per_character() {
    let mut ids = WidgetIds::new();
    let mut p = PasswordField::new(&mut ids);
    p.set_value("abc");
    assert_eq!(p.display_text(), "•••");
    p.set_value("a");
    assert_eq!(p.display_text(), "•");
    p.set_value("é");
    assert_eq!(p.display_text(), "•");
    p.toggle_visibility();
    assert!(p.is_revealed());
    assert_eq!(p.display_text(), "é");
    p.toggle_visibility();
    assert!(!p.is_revealed());
    let q = PasswordField::new(&mut ids).mask_char('*');
    let mut q = q;
    q.set_value("xy");
    assert_eq!(q.display_text(), "**");
    q.clear();
    assert_eq!(q.value(), "");
    assert_eq!(q.cursor_position(), 0);
}

#[test]
fn password_field_keys_fall_through_to_text() {
    let mut ids = WidgetIds::new();
    let mut p = PasswordField::new(&mut ids);
    let (consumed, _) = p.handle_key_input(Key::Backspace, Some("a"));
    assert!(consumed);
    assert_eq!(p.value(), "a");
    let (consumed, _) = p.handle_key_input(Key::Right, None);
    assert!(!consumed);
    let (consumed, _) = p.handle_key_input(Key::Other, Some("b\u{7}c"));
    assert!(consumed);
    assert_eq!(p.value(), "abc");
    assert_eq!(p.cursor_position(), 3);
    let (_, action) = p.handle_key_input(Key::Enter, None);
    assert_eq!(action, TextFieldAction::Submit);
}

#[test]
fn password_field_press_on_toggle_reveals() {
    let mut ids = WidgetIds::new();
    let mut p = PasswordField::new(&mut ids);
    let mut ctx = EventContext::new();
    assert_eq!(p.handle_pointer(press(true), true, &mut ctx), EventResult::Handled);
    assert!(p.is_revealed());
    assert!(p.state().focused);
    let mut q = PasswordField::new(&mut ids).show_toggle(false);
    q.handle_pointer(press(true), true, &mut ctx);
    assert!(!q.is_revealed());
}

#[test]
fn switch_toggle_respects_disabled() {
    let mut ids = WidgetIds::new();
    let mut s = ToggleSwitch::new(&mut ids);
    assert!(s.toggle());
    assert!(s.is_checked());
    assert!(s.toggle());
    assert!(!s.is_checked());
    let mut d = ToggleSwitch::new(&mut ids).disabled(true).checked(true);
    assert!(!d.toggle());
    assert!(d.is_checked());
    assert!(d.state().disabled);
    assert!(!s.set_checked(false));
    assert!(s.set_checked(true));
    assert_eq!(ToggleSwitchSize::default(), ToggleSwitchSize::Medium);
}

#[test]
fn switch_toggles_on_left_release_inside() {
    let mut ids = WidgetIds::new();
    let mut s = ToggleSwitch::new(&mut ids);
    let mut ctx = EventContext::new();
    let up = PointerEvent { kind: MouseEventKind::Up, button: Some(MouseButton::Left), in_bounds: true };
    assert_eq!(s.handle_pointer(up, &mut ctx), (EventResult::Handled, true));
    assert!(s.is_checked());
    let outside = PointerEvent { in_bounds: false, ..up };
    assert_eq!(s.handle_pointer(outside, &mut ctx), (EventResult::Ignored, false));
}

#[test]
fn search_bar_suggestions_follow_focus() {
    let mut ids = WidgetIds::new();
    let mut b = SearchBar::new(&mut ids);
    assert_eq!(b.shown_text(), "Search...");
    b.set_query("rust");
    assert_eq!(b.shown_text(), "rust");
    b.set_suggestions(vec![SearchSuggestion::new("1", "rust book")]);
    assert!(!b.suggestions_visible());
    b.focus();
    assert!(b.suggestions_visible());
    assert_eq!(b.dropdown_rows(), 1);
    b.blur();
    assert!(!b.suggestions_visible());
    assert_eq!(b.dropdown_rows(), 0);
    b.clear();
    assert_eq!(b.query(), "");
}

#[test]
fn search_bar_shows_at_most_five_rows() {
    let mut ids = WidgetIds::new();
    let mut b = SearchBar::new(&mut ids);
    b.focus();
    let many: Vec<SearchSuggestion> = (0..8).map(|i| SearchSuggestion::new(&i.to_string(), "x")).collect();
    b.set_suggestions(many);
    assert_eq!(b.dropdown_rows(), 5);
}

#[test]
fn textfield_type_then_backspace_restores() {
    let mut ids = WidgetIds::new();
    let (mut f, mut ctx) = focused_field(&mut ids, "héllo");
    f.handle_key(&key(Key::Left, None), &mut ctx);
    f.handle_key(&key(Key::Left, None), &mut ctx);
    let before = (f.get_value().to_string(), f.cursor_position());
    f.handle_key(&key(Key::Other, Some("z")), &mut ctx);
    assert_eq!(f.get_value(), "hélzlo");
    f.handle_key(&key(Key::Backspace, None), &mut ctx);
    assert_eq!((f.get_value().to_string(), f.cursor_position()), before);
}
