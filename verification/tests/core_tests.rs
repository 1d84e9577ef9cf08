use openkit::css::{ClassList, WidgetState};
use openkit::event::{left_button, Modifiers, MouseButton};
use openkit::text::{
    after_last_char, concat_str, contains_str, decimal_string, ends_with, insert_at, push_hex, remove_at,
    replace_spaces, starts_with, str_eq, strip_control, strip_prefix_str, trim, truncate_with_ellipsis,
};
use openkit::widget::{next_widget_id, EventContext, WidgetBase, WidgetIds};

#[test]
fn widget_ids_start_at_one_and_count_up() {
    let mut ids = WidgetIds::new();
    assert_eq!(next_widget_id(&mut ids), 1);
    assert_eq!(next_widget_id(&mut ids), 2);
    assert_eq!(next_widget_id(&mut ids), 3);
}

#[test]
fn widget_ids_are_distinct_across_many_draws() {
    let mut ids = WidgetIds::new();
    let mut seen = std::collections::HashSet::new();
    for _ in 0..1000 {
        assert!(seen.insert(next_widget_id(&mut ids)));
    }
}

#[test]
fn widget_base_takes_the_next_id() {
    let mut ids = WidgetIds::new();
    let a = WidgetBase::new(&mut ids);
    let b = WidgetBase::new(&mut ids).with_class("x").with_id("main");
    assert_eq!(a.id, 1);
    assert_eq!(b.id, 2);
    assert!(b.classes.contains("x"));
    assert_eq!(b.element_id_str(), Some("main"));
    assert_eq!(a.element_id_str(), None);
}

#[test]
fn class_list_add_is_idempotent_and_keeps_order() {
    let mut c = ClassList::new();
    c.add("a");
    c.add("b");
    c.add("a");
    assert_eq!(c.len(), 2);
    assert_eq!(c.get(0), "a");
    assert_eq!(c.get(1), "b");
    assert!(c.contains("b"));
    assert!(!c.contains("c"));
}

#[test]
fn widget_state_starts_cleared() {
    let s = WidgetState::new();
    assert!(!s.hovered && !s.pressed && !s.focused && !s.disabled && !s.checked);
    assert_eq!(WidgetState::default(), s);
}

#[test]
fn event_context_focus_and_redraw() {
    let mut ctx = EventContext::new();
    assert_eq!(ctx.focus, None);
    assert!(!ctx.should_redraw);
    ctx.request_focus(7);
    assert_eq!(ctx.focus, Some(7));
    ctx.request_redraw();
    assert!(ctx.should_redraw);
    ctx.release_focus();
    assert_eq!(ctx.focus, None);
    assert!(ctx.should_redraw);
}

#[test]
fn left_button_and_modifiers() {
    assert!(left_button(Some(MouseButton::Left)));
    assert!(!left_button(Some(MouseButton::Right)));
    assert!(!left_button(None));
    let m = Modifiers::none();
    assert!(!m.shift && !m.control && !m.alt && !m.meta);
}

#[test]
fn decimal_rendering() {
    assert_eq!(decimal_string(0), "0");
    assert_eq!(decimal_string(7), "7");
    assert_eq!(decimal_string(1234567890), "1234567890");
    assert_eq!(decimal_string(u64::MAX), "18446744073709551615");
}

#[test]
fn hex_rendering() {
    let mut s = String::from("id-");
    push_hex(&mut s, 0);
    assert_eq!(s, "id-0");
    let mut t = String::new();
    push_hex(&mut t, 0xdead_beef);
    assert_eq!(t, "deadbeef");
}

#[test]
fn prefixes_suffixes_and_substrings() {
    assert!(starts_with("https://x", "https://"));
    assert!(!starts_with("http", "https"));
    assert!(ends_with("file.tar.gz", ".gz"));
    assert!(!ends_with("a", "ab"));
    assert!(contains_str("hello world", "o w"));
    assert!(contains_str("abc", ""));
    assert!(!contains_str("abc", "abcd"));
    assert!(str_eq("x", "x"));
    assert!(!str_eq("x", "y"));
    assert_eq!(strip_prefix_str("www.example.com", "www."), "example.com");
    assert_eq!(strip_prefix_str("example.com", "www."), "example.com");
    assert_eq!(concat_str("ab", "cd"), "abcd");
}

#[test]
fn insert_and_remove_by_character_position() {
    assert_eq!(insert_at("helo", 3, "l"), "hello");
    assert_eq!(insert_at("", 0, "abc"), "abc");
    assert_eq!(remove_at("hello", 0), "ello");
    assert_eq!(remove_at("héllo", 1), "hllo");
}

#[test]
fn trimming_and_control_characters() {
    assert_eq!(trim("  a b \t\n"), "a b");
    assert_eq!(trim("   "), "");
    assert_eq!(strip_control("a\u{7}b\nc"), "abc");
    assert_eq!(replace_spaces("a b  c", '+'), "a+b++c");
}

#[test]
fn truncation_with_ellipsis() {
    assert_eq!(truncate_with_ellipsis("hello", 10), "hello");
    assert_eq!(truncate_with_ellipsis("hello", 5), "hello");
    assert_eq!(truncate_with_ellipsis("hello world", 6), "hello…");
    assert_eq!(truncate_with_ellipsis("", 0), "");
}

#[test]
fn part_after_last_separator() {
    assert_eq!(after_last_char("archive.tar.gz", '.'), "gz");
    assert_eq!(after_last_char("README", '.'), "README");
    assert_eq!(after_last_char("trailing.", '.'), "");
}

