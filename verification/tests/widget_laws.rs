use openkit::event::{EventResult, MouseButton, MouseEventKind, PointerEvent};
use openkit::widget::address_bar::AddressBar;
use openkit::widget::app_grid::{AppGrid, AppItem};
use openkit::widget::chat_window::{AiProvider, ChatWindow};
use openkit::widget::data_table::TableRow;
use openkit::widget::dropdown::Dropdown;
use openkit::widget::find_bar::FindBar;
use openkit::widget::label::Label;
use openkit::widget::menu_bar::{Menu, MenuAction, MenuBar, MenuItem};
use openkit::widget::password_field::PasswordField;
use openkit::widget::tabs::{Tab, TabVariant, Tabs};
use openkit::widget::textfield::TextField;
use openkit::theme::{ColorAdjust, ColorChoice, ThemeColor};
use openkit::widget::{EventContext, WidgetIds};

fn click() -> PointerEvent {
    PointerEvent { kind: MouseEventKind::Down, button: Some(MouseButton::Left), in_bounds: true }
}

fn pick_entry(bar: &mut MenuBar, row: usize, ctx: &mut EventContext) -> MenuAction {
    bar.handle_pointer(click(), Some(0), false, None, ctx);
    let (r, a) = bar.handle_pointer(click(), None, true, Some(row), ctx);
    assert_eq!(r, EventResult::Handled);
    a
}

#[test]
fn choosing_a_radio_entry_clears_the_rest_of_its_group() {
    let mut ids = WidgetIds::new();
    let mut bar = MenuBar::new(&mut ids).menu(
        Menu::new("View")
            .item(MenuItem::radio("Small", "size", true))
            .item(MenuItem::radio("Large", "size", false))
            .item(MenuItem::radio("Dark", "theme", true)),
    );
    let mut ctx = EventContext::new();
    assert!(matches!(pick_entry(&mut bar, 1, &mut ctx), MenuAction::RadioSelected { menu: 0, item: 1 }));
    // "Large" is now the chosen entry of its group: choosing it again does nothing.
    assert!(matches!(pick_entry(&mut bar, 1, &mut ctx), MenuAction::Nothing));
    // "Small" was cleared, so it can be chosen again.
    assert!(matches!(pick_entry(&mut bar, 0, &mut ctx), MenuAction::RadioSelected { menu: 0, item: 0 }));
    // Another group is left as it was.
    assert!(matches!(pick_entry(&mut bar, 2, &mut ctx), MenuAction::Nothing));
    assert!(bar.well_formed());
}

#[test]
fn replacing_grid_apps_keeps_the_selection_index() {
    let mut ids = WidgetIds::new();
    let mut grid = AppGrid::new(&mut ids)
        .app(AppItem::new("a", "Alpha"))
        .app(AppItem::new("b", "Beta"));
    grid.select_next();
    grid.select_next();
    assert_eq!(grid.selected_app().map(|a| a.id.as_str()), Some("b"));
    let grid = grid.apps(vec![AppItem::new("c", "Gamma"), AppItem::new("d", "Delta")]);
    assert!(grid.well_formed());
    assert_eq!(grid.selected_app().map(|a| a.id.as_str()), Some("d"));
    let grid = grid.apps(vec![AppItem::new("e", "Epsilon")]);
    assert_eq!(grid.selected_app().map(|a| a.id.as_str()), None);
}

#[test]
fn label_font_size_defaults_to_sixteen() {
    let mut ids = WidgetIds::new();
    assert_eq!(Label::new(&mut ids, "t").font_size(), 16);
    assert_eq!(Label::new(&mut ids, "t").class("muted").font_size(), 16);
    assert_eq!(Label::new(&mut ids, "t").class("heading").font_size(), 24);
}

#[test]
fn fresh_widgets_are_well_formed() {
    let mut ids = WidgetIds::new();
    assert!(TextField::new(&mut ids).well_formed());
    assert!(PasswordField::new(&mut ids).well_formed());
    assert!(Dropdown::new(&mut ids).well_formed());
    assert!(AddressBar::new(&mut ids).well_formed());
    assert!(FindBar::new(&mut ids).well_formed());
    assert!(ChatWindow::new(&mut ids).well_formed());
    assert!(AppGrid::new(&mut ids).well_formed());
    assert!(MenuBar::new(&mut ids).well_formed());
    assert!(TableRow::<String>::new("r").cell("name", "x".to_string()).cell("size", "1".to_string()).well_formed());
}

#[test]
fn provider_display_names() {
    assert_eq!(AiProvider::ollama("llama3").display_name(), "Ollama");
    assert_eq!(AiProvider::ollama("llama3").model_name(), "llama3");
    let p = AiProvider::claude("k", "m");
    assert_eq!(p.model_name(), "m");
}

fn tint(color: ThemeColor, percent: u8) -> ColorChoice {
    ColorChoice { color, adjust: ColorAdjust::AlphaPercent(percent) }
}

fn solid(color: ThemeColor) -> ColorChoice {
    ColorChoice { color, adjust: ColorAdjust::Plain }
}

#[test]
fn menu_entries_show_markers_and_colors() {
    assert_eq!(MenuItem::checkbox("Wrap", true).marker(), Some("\u{2713}"));
    assert_eq!(MenuItem::checkbox("Wrap", false).marker(), Some(" "));
    assert_eq!(MenuItem::radio("Small", "size", true).marker(), Some("\u{25cf}"));
    assert_eq!(MenuItem::radio("Small", "size", false).marker(), Some("\u{25cb}"));
    assert_eq!(MenuItem::action("Open").icon("O").marker(), Some("O"));
    assert_eq!(MenuItem::action("Open").marker(), None);
    assert_eq!(MenuItem::new("Save", "Ctrl+S").trailer(), Some("Ctrl+S"));
    assert_eq!(MenuItem::action("Open").trailer(), None);
    let mut ids = WidgetIds::new();
    let mut bar = MenuBar::new(&mut ids)
        .menu(Menu::new("File").item(MenuItem::action("Open")).item(MenuItem::action("Gone").enabled(false)))
        .menu(Menu::new("Edit").item(MenuItem::action("Undo")));
    assert_eq!(bar.header_text_color(0), ThemeColor::Foreground);
    assert_eq!(bar.header_background(0), solid(ThemeColor::Transparent));
    let mut ctx = EventContext::new();
    bar.handle_pointer(click(), Some(0), false, None, &mut ctx);
    assert_eq!(bar.header_text_color(0), ThemeColor::Accent);
    assert_eq!(bar.header_background(0), tint(ThemeColor::Accent, 20));
    assert_eq!(bar.header_text_color(1), ThemeColor::Foreground);
    assert_eq!(bar.entry_text_color(0, 1), ThemeColor::MutedForeground);
    assert_eq!(bar.entry_text_color(0, 0), ThemeColor::Foreground);
    assert_eq!(bar.entry_background(0, 0), solid(ThemeColor::Transparent));
}

#[test]
fn tab_colors_follow_variant_selection_and_hover() {
    let mut ids = WidgetIds::new();
    let mut t = Tabs::new(&mut ids).tabs(vec![
        Tab::new("a", "A"),
        Tab::new("b", "B").closeable(true),
        Tab::new("c", "C").disabled(true),
    ]);
    assert_eq!(t.tab_background(0), solid(ThemeColor::Background));
    assert!(t.shows_underline(0));
    assert!(!t.shows_underline(1));
    assert_eq!(t.tab_text_color(0), ThemeColor::Foreground);
    assert_eq!(t.tab_text_color(2), ThemeColor::MutedForeground);
    assert_eq!(t.tab_background(1), solid(ThemeColor::Transparent));
    let mut ctx = EventContext::new();
    let over = PointerEvent { kind: MouseEventKind::Move, button: None, in_bounds: true };
    t.handle_pointer(over, Some((1, true)), &mut ctx);
    assert_eq!(t.tab_background(1), tint(ThemeColor::Muted, 50));
    assert_eq!(t.close_color(1), ThemeColor::Destructive);
    assert_eq!(t.close_color(0), ThemeColor::MutedForeground);
    let p = Tabs::new(&mut ids).variant(TabVariant::Pills).tabs(vec![Tab::new("a", "A"), Tab::new("b", "B")]);
    assert_eq!(p.tab_background(0), solid(ThemeColor::Accent));
    assert_eq!(p.tab_text_color(0), ThemeColor::AccentForeground);
    assert!(!p.shows_underline(0));
    let b = Tabs::new(&mut ids).variant(TabVariant::Boxed).tab(Tab::new("a", "A"));
    assert_eq!(b.tab_background(0), solid(ThemeColor::Card));
}
