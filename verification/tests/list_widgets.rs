use openkit::event::{EventResult, Key, KeyEvent, KeyEventKind, Modifiers, MouseButton, MouseEventKind, PointerEvent};
use openkit::widget::context_menu::{ContextMenu, ContextMenuAction, MenuItem as ContextItem};
use openkit::theme::{ColorAdjust, ThemeColor};
use openkit::widget::data_table::{cell_text, BadgeVariant, DataTable, SortDirection, TableAction, TableColumn, TableRow, TableSelectionMode};
use openkit::widget::list_view::{ListAction, ListItem, ListView, SelectionMode};
use openkit::widget::menu_bar::{Menu, MenuAction, MenuBar, MenuItem};
use openkit::widget::server_list::{latency_color, load_label, ServerList, StatusColor, VpnServer};
use openkit::widget::tabs::{Tab, Tabs, TabsAction};
use openkit::widget::{EventContext, Widget, WidgetIds};

fn down(k: Key) -> KeyEvent {
    KeyEvent { kind: KeyEventKind::Down, key: k, modifiers: Modifiers::none(), text: None }
}

fn mouse(kind: MouseEventKind, button: MouseButton, in_bounds: bool) -> PointerEvent {
    PointerEvent { kind, button: Some(button), in_bounds }
}

fn focus_list(l: &mut ListView, ctx: &mut EventContext) {
    l.handle_pointer(mouse(MouseEventKind::Down, MouseButton::Left, true), Some(0), ctx);
}

#[test]
fn list_single_selection_keeps_one() {
    let mut ids = WidgetIds::new();
    let mut l = ListView::new(&mut ids)
        .item(ListItem::new("a", "A"))
        .item(ListItem::new("b", "B"))
        .item(ListItem::new("c", "C").disabled(true));
    assert!(l.select("a"));
    assert!(l.select("b"));
    assert_eq!(l.selected_items(), vec!["b"]);
    assert!(!l.select("c"));
    assert_eq!(l.selected_items(), Vec::<&str>::new());
    assert!(!l.select("zzz"));
}

#[test]
fn list_multiple_selection_toggles() {
    let mut ids = WidgetIds::new();
    let mut l = ListView::new(&mut ids)
        .selection_mode(SelectionMode::Multiple)
        .items(vec![ListItem::new("a", "A"), ListItem::new("b", "B")]);
    assert!(l.toggle_selection("a"));
    assert!(l.toggle_selection("b"));
    assert_eq!(l.selected_items(), vec!["a", "b"]);
    assert!(l.toggle_selection("a"));
    assert_eq!(l.selected_items(), vec!["b"]);
    l.clear_selection();
    assert!(l.selected_items().is_empty());
    let mut n = ListView::new(&mut ids).selection_mode(SelectionMode::NoSelection).item(ListItem::new("a", "A"));
    assert!(!n.select("a"));
    assert!(!n.toggle_selection("a"));
}

#[test]
fn list_keyboard_navigation_and_activation() {
    let mut ids = WidgetIds::new();
    let mut l = ListView::new(&mut ids).items(vec![ListItem::new("a", "A"), ListItem::new("b", "B")]);
    let mut ctx = EventContext::new();
    // No focus yet: keys are ignored.
    assert!(matches!(l.handle_key(&down(Key::Down), &mut ctx), (EventResult::Ignored, ListAction::Nothing)));
    focus_list(&mut l, &mut ctx);
    assert_eq!(ctx.focus, Some(Widget::id(&l)));
    assert_eq!(l.selected_items(), vec!["a"]);
}

#[test]
fn list_pointer_hover_and_click() {
    let mut ids = WidgetIds::new();
    let mut l = ListView::new(&mut ids).items(vec![ListItem::new("a", "A"), ListItem::new("b", "B")]);
    let mut ctx = EventContext::new();
    let mv = PointerEvent { kind: MouseEventKind::Move, button: None, in_bounds: true };
    l.handle_pointer(mv, Some(1), &mut ctx);
    assert_eq!(l.hovered_index(), Some(1));
    l.handle_pointer(mv, Some(9), &mut ctx);
    assert_eq!(l.hovered_index(), None);
    let (r, a) = l.handle_pointer(mouse(MouseEventKind::Down, MouseButton::Left, true), Some(1), &mut ctx);
    assert_eq!(r, EventResult::Handled);
    assert!(matches!(a, ListAction::Select(ref s) if s == "b"));
}

#[test]
fn table_sorting_flips_on_same_column() {
    let mut ids = WidgetIds::new();
    let mut t: DataTable<u32, String> = DataTable::new(&mut ids)
        .column(TableColumn::new("name", "Name", 1))
        .column(TableColumn::new("size", "Size", 1).sortable(false));
    let mut ctx = EventContext::new();
    let click = mouse(MouseEventKind::Down, MouseButton::Left, true);
    let (r, a) = t.handle_pointer(click, None, Some(0), &mut ctx);
    assert_eq!(r, EventResult::Handled);
    assert!(matches!(a, TableAction::Sort(ref c, SortDirection::Ascending) if c == "name"));
    let (_, a) = t.handle_pointer(click, None, Some(0), &mut ctx);
    assert!(matches!(a, TableAction::Sort(_, SortDirection::Descending)));
    assert_eq!(t.sort_state(), (Some("name"), SortDirection::Descending));
    let (r, _) = t.handle_pointer(click, None, Some(1), &mut ctx);
    assert_eq!(r, EventResult::Ignored);
    assert_eq!(SortDirection::Ascending.toggle().toggle(), SortDirection::Ascending);
    assert_eq!(SortDirection::Descending.icon(), "▼");
}

#[test]
fn table_rows_select_and_cells_replace() {
    let mut ids = WidgetIds::new();
    let row = TableRow::new("r1").cell("name", 1u8).cell("size", 2u8).cell("name", 3u8);
    assert_eq!(row.get_cell("name"), Some(&3u8));
    assert_eq!(row.get_cell("size"), Some(&2u8));
    assert_eq!(row.get_cell("none"), None);
    let mut t: DataTable<u32, u8> = DataTable::new(&mut ids).row(row).row(TableRow::new("r2").disabled(true)).row(TableRow::new("r3"));
    assert!(t.select("r1"));
    assert!(!t.select("r2"));
    assert_eq!(t.selected(), Vec::<&str>::new());
    assert!(t.select("r3"));
    assert_eq!(t.selected(), vec!["r3"]);
    let mut m: DataTable<u32, u8> = DataTable::new(&mut ids)
        .selection_mode(TableSelectionMode::Multiple)
        .rows(vec![TableRow::new("a"), TableRow::new("b")]);
    m.select("a");
    m.select("b");
    assert_eq!(m.selected(), vec!["a", "b"]);
}

#[test]
fn table_right_click_selects_and_asks_for_menu() {
    let mut ids = WidgetIds::new();
    let mut t: DataTable<u32, u8> = DataTable::new(&mut ids).rows(vec![TableRow::new("a"), TableRow::new("b")]);
    let mut ctx = EventContext::new();
    let (r, a) = t.handle_pointer(mouse(MouseEventKind::Down, MouseButton::Right, true), Some(1), None, &mut ctx);
    assert_eq!(r, EventResult::Handled);
    assert!(matches!(a, TableAction::ContextMenu(ref id, true) if id == "b"));
    assert_eq!(t.selected(), vec!["b"]);
}

fn sample_menus(ids: &mut WidgetIds) -> MenuBar {
    MenuBar::new(ids)
        .menu(
            Menu::new("File")
                .item(MenuItem::new("New File", "Ctrl+N"))
                .separator()
                .item(MenuItem::action("Disabled").enabled(false))
                .item(MenuItem::checkbox("Show Toolbar", true)),
        )
        .menu(Menu::new("Edit").item(MenuItem::action("Undo")))
}

#[test]
fn menu_item_ids_come_from_labels() {
    let m = Menu::new("File").item(MenuItem::new("New File", "Ctrl+N")).submenu(Menu::new("Open Recent"));
    assert_eq!(m.items().len(), 2);
    assert_eq!(m.items()[0].label(), "New File");
    assert!(m.items()[0].is_enabled());
    assert!(!MenuItem::separator().is_enabled());
    assert!(MenuItem::separator().is_separator());
    assert_eq!(MenuItem::separator().label(), "");
    let mut c = MenuItem::checkbox("Wrap", false);
    assert_eq!(c.toggle(), Some(true));
    assert_eq!(c.toggle(), Some(false));
    let mut d = MenuItem::checkbox("Wrap", false).enabled(false);
    assert_eq!(d.toggle(), None);
}

#[test]
fn menu_bar_keyboard_skips_separators_and_disabled_entries() {
    let mut ids = WidgetIds::new();
    let mut bar = sample_menus(&mut ids);
    let mut ctx = EventContext::new();
    let click = mouse(MouseEventKind::Down, MouseButton::Left, true);
    assert_eq!(bar.handle_pointer(click, Some(0), false, None, &mut ctx).0, EventResult::Handled);
    assert!(bar.is_menu_open());
    assert_eq!(bar.active_menu(), Some(0));
    bar.handle_key(&down(Key::Down), &mut ctx);
    assert_eq!(bar.hovered_item(), Some(0));
    bar.handle_key(&down(Key::Down), &mut ctx);
    assert_eq!(bar.hovered_item(), Some(3));
    bar.handle_key(&down(Key::Down), &mut ctx);
    assert_eq!(bar.hovered_item(), Some(0));
    bar.handle_key(&down(Key::Up), &mut ctx);
    assert_eq!(bar.hovered_item(), Some(3));
    let (r, a) = bar.handle_key(&down(Key::Enter), &mut ctx);
    assert_eq!(r, EventResult::Handled);
    assert!(matches!(a, MenuAction::Toggled { menu: 0, item: 3, checked: false }));
    assert!(!bar.is_menu_open());
}

#[test]
fn menu_bar_left_right_wrap_and_escape_closes() {
    let mut ids = WidgetIds::new();
    let mut bar = sample_menus(&mut ids);
    let mut ctx = EventContext::new();
    bar.handle_pointer(mouse(MouseEventKind::Down, MouseButton::Left, true), Some(0), false, None, &mut ctx);
    bar.handle_key(&down(Key::Left), &mut ctx);
    assert_eq!(bar.active_menu(), Some(1));
    bar.handle_key(&down(Key::Right), &mut ctx);
    assert_eq!(bar.active_menu(), Some(0));
    assert_eq!(bar.handle_key(&down(Key::Escape), &mut ctx).0, EventResult::Handled);
    assert!(!bar.is_menu_open());
    assert_eq!(bar.handle_key(&down(Key::Escape), &mut ctx).0, EventResult::Ignored);
}

#[test]
fn menu_bar_click_on_entry_runs_action() {
    let mut ids = WidgetIds::new();
    let mut bar = sample_menus(&mut ids);
    let mut ctx = EventContext::new();
    let click = mouse(MouseEventKind::Down, MouseButton::Left, true);
    bar.handle_pointer(click, Some(0), false, None, &mut ctx);
    let (r, a) = bar.handle_pointer(click, None, true, Some(0), &mut ctx);
    assert_eq!(r, EventResult::Handled);
    assert!(matches!(a, MenuAction::Activate { menu: 0, item: 0, ref id } if id == "new_file"));
    assert!(!bar.is_menu_open());
    bar.handle_pointer(click, Some(0), false, None, &mut ctx);
    let (r, a) = bar.handle_pointer(click, None, true, Some(2), &mut ctx);
    assert_eq!(r, EventResult::Ignored);
    assert!(matches!(a, MenuAction::Nothing));
    assert!(bar.is_menu_open());
    let (r, _) = bar.handle_pointer(click, None, false, None, &mut ctx);
    assert_eq!(r, EventResult::Ignored);
    assert!(!bar.is_menu_open());
}

#[test]
fn context_menu_keys_skip_separators() {
    let mut ids = WidgetIds::new();
    let mut m = ContextMenu::new(&mut ids)
        .item(ContextItem::new("cut", "Cut"))
        .item(ContextItem::separator())
        .item(ContextItem::new("paste", "Paste"));
    let mut ctx = EventContext::new();
    assert!(matches!(m.handle_key(&down(Key::Down), &mut ctx), (EventResult::Ignored, ContextMenuAction::Nothing)));
    m.show();
    m.handle_key(&down(Key::Down), &mut ctx);
    assert_eq!(m.hovered_index(), Some(2));
    m.handle_key(&down(Key::Up), &mut ctx);
    assert_eq!(m.hovered_index(), Some(0));
    m.handle_key(&down(Key::Down), &mut ctx);
    let (r, a) = m.handle_key(&down(Key::Enter), &mut ctx);
    assert_eq!(r, EventResult::Handled);
    assert!(matches!(a, ContextMenuAction::Select(ref id) if id == "paste"));
    assert!(!m.is_visible());
}

#[test]
fn context_menu_click_outside_closes() {
    let mut ids = WidgetIds::new();
    let mut m = ContextMenu::new(&mut ids).item(ContextItem::new("a", "A"));
    let mut ctx = EventContext::new();
    m.show();
    let (r, a) = m.handle_pointer(mouse(MouseEventKind::Down, MouseButton::Left, true), false, None, &mut ctx);
    assert_eq!(r, EventResult::Handled);
    assert!(matches!(a, ContextMenuAction::Close));
    assert!(!m.is_visible());
}

#[test]
fn tabs_select_first_enabled_and_close_buttons() {
    let mut ids = WidgetIds::new();
    let mut t = Tabs::new(&mut ids).tabs(vec![
        Tab::new("a", "A").disabled(true),
        Tab::new("b", "B").closeable(true),
        Tab::new("c", "C"),
    ]);
    assert_eq!(t.selected_id(), Some("b"));
    assert!(!t.select("a"));
    assert!(t.select("c"));
    assert_eq!(t.selected_id(), Some("c"));
    let mut ctx = EventContext::new();
    let up = mouse(MouseEventKind::Up, MouseButton::Left, true);
    let (r, a, fwd) = t.handle_pointer(up, Some((1, true)), &mut ctx);
    assert_eq!(r, EventResult::Handled);
    assert!(matches!(a, TabsAction::Close(ref id) if id == "b"));
    assert!(!fwd);
    let (_, a, _) = t.handle_pointer(up, Some((2, true)), &mut ctx);
    assert!(matches!(a, TabsAction::Change(ref id) if id == "c"));
    let (r, _, fwd) = t.handle_pointer(up, Some((0, false)), &mut ctx);
    assert_eq!(r, EventResult::Ignored);
    assert!(!fwd);
}

#[test]
fn tabs_builder_auto_selects() {
    let mut ids = WidgetIds::new();
    let t = Tabs::new(&mut ids).tab(Tab::new("x", "X").disabled(true)).tab(Tab::new("y", "Y"));
    assert_eq!(t.selected_id(), Some("y"));
    let u = Tabs::new(&mut ids).selected("z").tab(Tab::new("y", "Y"));
    assert_eq!(u.selected_id(), Some("z"));
}

#[test]
fn server_list_select_and_location() {
    let mut ids = WidgetIds::new();
    let s1 = VpnServer::new("de", "Frankfurt", "de.vpn").city("Frankfurt").country("DE").load(200);
    assert_eq!(s1.load, Some(100));
    assert_eq!(s1.location(), "Frankfurt, DE");
    assert_eq!(s1.load_color(), StatusColor::Red);
    let s2 = VpnServer::new("us", "US", "us.vpn");
    assert_eq!(s2.location(), "us.vpn");
    assert_eq!(s2.load_color(), StatusColor::Gray);
    assert_eq!(VpnServer::new("x", "X", "h").country("FR").location(), "FR");
    let mut list = ServerList::new(&mut ids).servers(vec![s1, s2]);
    assert!(list.get_selected().is_none());
    list.select("nope");
    assert!(list.get_selected().is_none());
    list.select("us");
    assert_eq!(list.get_selected().map(|s| s.name.as_str()), Some("US"));
    assert_eq!(latency_color(49), StatusColor::Green);
    assert_eq!(latency_color(99), StatusColor::Amber);
    assert_eq!(latency_color(100), StatusColor::Red);
    assert_eq!(load_label(42), "42%");
}

#[test]
fn server_list_release_selects_row() {
    let mut ids = WidgetIds::new();
    let mut list = ServerList::new(&mut ids).servers(vec![VpnServer::new("a", "A", "a"), VpnServer::new("b", "B", "b")]);
    let mut ctx = EventContext::new();
    let (r, i) = list.handle_pointer(mouse(MouseEventKind::Up, MouseButton::Left, true), Some(1), &mut ctx);
    assert_eq!((r, i), (EventResult::Handled, Some(1)));
    assert_eq!(list.get_selected().map(|s| s.id.as_str()), Some("b"));
    let (r, i) = list.handle_pointer(mouse(MouseEventKind::Up, MouseButton::Left, true), Some(5), &mut ctx);
    assert_eq!((r, i), (EventResult::Ignored, None));
}

#[test]
fn list_select_twice_is_select_once() {
    let mut ids = WidgetIds::new();
    let mut l = ListView::new(&mut ids).items(vec![ListItem::new("a", "A"), ListItem::new("b", "B")]);
    l.select("b");
    let once: Vec<String> = l.selected_items().iter().map(|s| s.to_string()).collect();
    l.select("b");
    let twice: Vec<String> = l.selected_items().iter().map(|s| s.to_string()).collect();
    assert_eq!(once, twice);
    assert_eq!(twice, vec!["b".to_string()]);
}

#[test]
fn list_double_click_and_enter_activate() {
    let mut ids = WidgetIds::new();
    let mut l = ListView::new(&mut ids).item(ListItem::new("doc1", "Document.pdf"));
    let mut ctx = EventContext::new();
    let press = mouse(MouseEventKind::Down, MouseButton::Left, true);
    let t = std::time::Instant::now();
    let (_, a) = l.pointer_step(press, Some(0), t, None, &mut ctx);
    assert!(matches!(a, ListAction::Select(ref s) if s == "doc1"));
    assert!(l.state().focused);
    let (r, a) = l.handle_key(&down(Key::Enter), &mut ctx);
    assert_eq!(r, EventResult::Handled);
    assert!(matches!(a, ListAction::Activate(ref s) if s == "doc1"));
    let (r, a) = l.pointer_step(press, Some(0), t, Some(120), &mut ctx);
    assert_eq!(r, EventResult::Handled);
    assert!(matches!(a, ListAction::Activate(ref s) if s == "doc1"));
    let (_, a) = l.pointer_step(press, Some(0), t, Some(120), &mut ctx);
    assert!(!matches!(a, ListAction::Activate(_)));
}

#[test]
fn list_slow_second_click_only_selects() {
    let mut ids = WidgetIds::new();
    let mut l = ListView::new(&mut ids).item(ListItem::new("a", "A"));
    let mut ctx = EventContext::new();
    let press = mouse(MouseEventKind::Down, MouseButton::Left, true);
    let t = std::time::Instant::now();
    l.pointer_step(press, Some(0), t, None, &mut ctx);
    let (_, a) = l.pointer_step(press, Some(0), t, Some(500), &mut ctx);
    assert!(matches!(a, ListAction::Select(_)));
    let (_, a) = l.handle_pointer(press, Some(0), &mut ctx);
    assert!(matches!(a, ListAction::Activate(_)));
}

#[test]
fn table_double_click_and_enter_activate() {
    let mut ids = WidgetIds::new();
    let mut t: DataTable<u32, u8> = DataTable::new(&mut ids)
        .column(TableColumn::new("name", "Name", 1))
        .row(TableRow::new("r1"));
    let mut ctx = EventContext::new();
    let press = mouse(MouseEventKind::Down, MouseButton::Left, true);
    let now = std::time::Instant::now();
    let (_, a) = t.pointer_step(press, Some(0), None, now, None, &mut ctx);
    assert!(matches!(a, TableAction::Select(ref s) if s == "r1"));
    assert!(t.state().focused);
    let (r, a) = t.handle_key(&down(Key::Enter), &mut ctx);
    assert_eq!(r, EventResult::Handled);
    assert!(matches!(a, TableAction::Activate(ref s) if s == "r1"));
    let (_, a) = t.pointer_step(press, Some(0), None, now, Some(10), &mut ctx);
    assert!(matches!(a, TableAction::Activate(ref s) if s == "r1"));
    let (_, a) = t.pointer_step(press, Some(0), None, now, Some(10), &mut ctx);
    assert!(matches!(a, TableAction::Select(_)) || matches!(a, TableAction::Nothing));
}

#[test]
fn table_row_colors_and_cell_text() {
    let mut ids = WidgetIds::new();
    let mut t: DataTable<u32, u8> = DataTable::new(&mut ids)
        .column(TableColumn::new("name", "Name", 1))
        .rows(vec![TableRow::new("a"), TableRow::new("b"), TableRow::new("c").disabled(true)]);
    assert_eq!(t.row_background(0).color, ThemeColor::Background);
    assert_eq!(t.row_background(1).color, ThemeColor::Surface);
    assert_eq!(t.row_background(1).adjust, ColorAdjust::AlphaPercent(50));
    t.select("a");
    assert_eq!(t.row_background(0).color, ThemeColor::Accent);
    assert_eq!(t.row_text_color(2), ThemeColor::MutedForeground);
    assert_eq!(DataTable::<u32, u8>::row_number_text(0), "1");
    assert_eq!(t.sort_indicator(0), None);
    let mut ctx = EventContext::new();
    t.handle_pointer(mouse(MouseEventKind::Down, MouseButton::Left, true), None, Some(0), &mut ctx);
    assert_eq!(t.sort_indicator(0), Some("▲"));
    assert_eq!(cell_text("short"), "short");
    let long = "x".repeat(41);
    assert_eq!(cell_text(&long), format!("{}...", "x".repeat(37)));
    assert_eq!(BadgeVariant::Danger.color(), ThemeColor::Destructive);
}

#[test]
fn server_item_backgrounds() {
    let mut ids = WidgetIds::new();
    let mut list = ServerList::new(&mut ids).servers(vec![VpnServer::new("a", "A", "a"), VpnServer::new("b", "B", "b")]);
    assert_eq!(list.item_background(0).color, ThemeColor::Transparent);
    list.select("b");
    assert_eq!(list.item_background(1).color, ThemeColor::Primary);
    let mut ctx = EventContext::new();
    let mv = PointerEvent { kind: MouseEventKind::Move, button: None, in_bounds: true };
    list.handle_pointer(mv, Some(0), &mut ctx);
    assert_eq!(list.item_background(0).color, ThemeColor::Muted);
}
