use openkit::event::{EventResult, MouseButton, MouseEventKind, PointerEvent};
use openkit::widget::browser_tab::{BrowserTabBar, BrowserTabBarAction, BrowserTabData, TabLoadingState};
use openkit::widget::card::CardVariant;
use openkit::widget::desktop::{Desktop, DesktopAction, DesktopIcon, GradientDirection, Wallpaper, WallpaperMode};
use openkit::widget::download_item::{DownloadData, DownloadItem, DownloadState};
use openkit::widget::network_indicator::{NetworkIndicator, NetworkStatus, NetworkType};
use openkit::widget::panel::{Panel, PanelPosition};
use openkit::widget::piece_map::{PieceMap, PieceState};
use openkit::widget::scroll_view::ScrollBarVisibility;
use openkit::widget::speed_graph::{push_bounded, TimeScale};
use openkit::widget::split_pane::{DividerAction, SplitPane};
use openkit::widget::start_button::{StartButton, StartButtonState, StartButtonStyle};
use openkit::widget::start_menu::{StartMenu, StartMenuItem, StartMenuSection};
use openkit::widget::system_tray::{badge_label, SystemTray, TrayAction, TrayIcon};
use openkit::widget::taskbar_button::{TaskbarButton, TaskbarWindow};
use openkit::widget::{EventContext, WidgetIds};

fn left(kind: MouseEventKind, in_bounds: bool) -> PointerEvent {
    PointerEvent { kind, button: Some(MouseButton::Left), in_bounds }
}

fn window(id: &str, active: bool) -> TaskbarWindow {
    TaskbarWindow { id: id.to_string(), title: id.to_uppercase(), preview: None, is_active: active }
}

#[test]
fn desktop_click_selects_and_second_quick_press_double_clicks() {
    let mut ids = WidgetIds::new();
    let mut d = Desktop::new(&mut ids, Wallpaper::color(0u32))
        .icon(DesktopIcon::new("home", "Home", "🏠"))
        .icon(DesktopIcon::new("trash", "Trash", "🗑").at(0, 1));
    let mut ctx = EventContext::new();
    let (r, a) = d.handle_pointer(left(MouseEventKind::Down, true), Some(1), &mut ctx);
    assert_eq!(r, EventResult::Handled);
    assert!(matches!(a, DesktopAction::Click(ref id) if id == "trash"));
    assert!(d.get_icons()[1].selected);
    assert!(!d.get_icons()[0].selected);
    let (_, a) = d.handle_pointer(left(MouseEventKind::Down, true), Some(1), &mut ctx);
    assert!(matches!(a, DesktopAction::DoubleClick(ref id) if id == "trash"));
    let (r, _) = d.handle_pointer(left(MouseEventKind::Down, true), None, &mut ctx);
    assert_eq!(r, EventResult::Ignored);
    assert!(d.get_icons().iter().all(|i| !i.selected));
}

#[test]
fn desktop_pointer_step_respects_the_gap() {
    let mut ids = WidgetIds::new();
    let mut d = Desktop::new(&mut ids, Wallpaper::color(0u32)).icon(DesktopIcon::new("a", "A", "x"));
    let mut ctx = EventContext::new();
    let t = std::time::Instant::now();
    let (_, a) = d.pointer_step(left(MouseEventKind::Down, true), Some(0), t, None, &mut ctx);
    assert!(matches!(a, DesktopAction::Click(_)));
    let (_, a) = d.pointer_step(left(MouseEventKind::Down, true), Some(0), t, Some(500), &mut ctx);
    assert!(matches!(a, DesktopAction::Click(_)));
    let (_, a) = d.pointer_step(left(MouseEventKind::Down, true), Some(0), t, Some(499), &mut ctx);
    assert!(matches!(a, DesktopAction::DoubleClick(_)));
    let right = PointerEvent { kind: MouseEventKind::Down, button: Some(MouseButton::Right), in_bounds: true };
    let (r, a) = d.pointer_step(right, None, t, None, &mut ctx);
    assert_eq!(r, EventResult::Handled);
    assert!(matches!(a, DesktopAction::RightClick));
}

#[test]
fn wallpaper_modifiers_only_touch_their_variants() {
    let img = Wallpaper::image("/bg.png", 1u8).with_mode(WallpaperMode::Tile).with_fallback(2u8);
    assert!(matches!(img, Wallpaper::Image { ref path, mode: WallpaperMode::Tile, fallback: 2 } if path == "/bg.png"));
    let g = Wallpaper::gradient(1u8, 2u8).with_direction(GradientDirection::Radial).with_mode(WallpaperMode::Fit);
    assert!(matches!(g, Wallpaper::Gradient { start: 1, end: 2, direction: GradientDirection::Radial }));
    let c = Wallpaper::color(5u8).with_direction(GradientDirection::ToTop).with_fallback(9u8);
    assert!(matches!(c, Wallpaper::Color(5)));
}

#[test]
fn start_menu_search_is_case_insensitive() {
    let mut ids = WidgetIds::new();
    let mut m = StartMenu::new(&mut ids)
        .app(StartMenuItem::app("ff", "Firefox"))
        .app(StartMenuItem::app("tb", "Thunderbird"))
        .app(StartMenuItem::folder("games", "Games"));
    assert_eq!(m.get_filtered_apps().len(), 3);
    m.set_search("FIRE");
    let ids_found: Vec<&str> = m.get_filtered_apps().iter().map(|a| a.id.as_str()).collect();
    assert_eq!(ids_found, vec!["ff"]);
    m.set_section(StartMenuSection::AllApps);
    m.open();
    assert!(m.is_open());
    assert_eq!(m.current_section(), StartMenuSection::Pinned);
    assert_eq!(m.get_filtered_apps().len(), 3);
    m.toggle();
    assert!(!m.is_open());
}

#[test]
fn start_button_click_toggles_menu() {
    let mut ids = WidgetIds::new();
    let mut b = StartButton::new(&mut ids);
    assert_eq!(b.handle_pointer(left(MouseEventKind::Down, true)), (EventResult::Handled, None));
    assert_eq!(b.button_state(), StartButtonState::Pressed);
    assert_eq!(b.handle_pointer(left(MouseEventKind::Up, true)), (EventResult::Handled, Some(true)));
    assert!(b.is_menu_open());
    assert_eq!(b.button_state(), StartButtonState::Active);
    let mv = PointerEvent { kind: MouseEventKind::Move, button: None, in_bounds: true };
    assert_eq!(b.handle_pointer(mv), (EventResult::Ignored, None));
    assert_eq!(b.toggle_menu(), false);
    assert_eq!(b.button_state(), StartButtonState::Normal);
    let c = StartButton::new(&mut ids).icon("/start.svg");
    let _ = c;
    assert_eq!(StartButtonStyle::default(), StartButtonStyle::WindowsLogo);
}

#[test]
fn taskbar_windows_activate_and_remove() {
    let mut ids = WidgetIds::new();
    let mut b = TaskbarButton::new(&mut ids, "term", "Terminal").window(window("w1", true)).window(window("w2", false));
    assert!(b.has_windows());
    assert!(b.has_active_window());
    b.set_active_window("w2");
    assert_eq!(b.window_count(), 2);
    b.remove_window("w2");
    assert_eq!(b.window_count(), 1);
    assert!(!b.has_active_window());
    b.add_window(window("w1", false));
    b.remove_window("w1");
    assert!(!b.has_windows());
    assert_eq!(TaskbarButton::new(&mut ids, "a", "A").badge(0).badge_text(), None);
    assert_eq!(TaskbarButton::new(&mut ids, "a", "A").badge(7).badge_text(), Some("7".to_string()));
    assert_eq!(TaskbarButton::new(&mut ids, "a", "A").badge(100).badge_text(), Some("99+".to_string()));
}

#[test]
fn tray_clicks_and_badges() {
    let mut ids = WidgetIds::new();
    let mut t = SystemTray::new(&mut ids)
        .icon(TrayIcon::new("net", "📶").tooltip("Network"))
        .icon(TrayIcon::new("vol", "🔊").badge(Some(3)));
    assert!(t.get_icons()[1].has_badge);
    let mut ctx = EventContext::new();
    let (r, a) = t.handle_pointer(left(MouseEventKind::Up, true), Some(1), &mut ctx);
    assert_eq!(r, EventResult::Handled);
    assert!(matches!(a, TrayAction::Click(ref id) if id == "vol"));
    let right = PointerEvent { kind: MouseEventKind::Up, button: Some(MouseButton::Right), in_bounds: true };
    let (_, a) = t.handle_pointer(right, Some(0), &mut ctx);
    assert!(matches!(a, TrayAction::RightClick(ref id) if id == "net"));
    let mv = PointerEvent { kind: MouseEventKind::Move, button: None, in_bounds: true };
    t.handle_pointer(mv, Some(0), &mut ctx);
    assert_eq!(t.hovered_icon(), Some("net"));
    t.update_icon("vol", |mut i| {
        i.badge_count = Some(12);
        i
    });
    assert_eq!(t.get_icons()[1].badge_count, Some(12));
    assert_eq!(badge_label(9), "9");
    assert_eq!(badge_label(10), "9+");
}

#[test]
fn piece_map_bitfield_and_stats() {
    let mut ids = WidgetIds::new();
    let m = PieceMap::new(&mut ids).from_bitfield(&[0b1010_0000, 0b1000_0000], 10);
    let p = m.get_pieces();
    assert_eq!(p.len(), 10);
    assert_eq!(p[0], PieceState::Complete);
    assert_eq!(p[1], PieceState::Missing);
    assert_eq!(p[2], PieceState::Complete);
    assert_eq!(p[8], PieceState::Complete);
    assert_eq!(p[9], PieceState::Missing);
    let s = m.stats();
    assert_eq!((s.total, s.complete, s.missing), (10, 3, 7));
    let short = PieceMap::new(&mut ids).from_bitfield(&[0xff], 12);
    assert_eq!(short.stats().complete, 8);
    let mixed = PieceMap::new(&mut ids).pieces(vec![PieceState::Failed, PieceState::Requested, PieceState::Downloading]);
    let s = mixed.stats();
    assert_eq!(s.failed + s.requested + s.downloading + s.complete + s.missing, s.total);
}

#[test]
fn piece_map_hover_reports_piece() {
    let mut ids = WidgetIds::new();
    let mut m = PieceMap::new(&mut ids).pieces(vec![PieceState::Complete; 6]);
    let mut ctx = EventContext::new();
    let mv = PointerEvent { kind: MouseEventKind::Move, button: None, in_bounds: true };
    assert_eq!(m.handle_pointer(mv, Some((1, 2, 3)), &mut ctx).1, Some((5, PieceState::Complete)));
    assert_eq!(m.handle_pointer(mv, Some((1, 2, 3)), &mut ctx).1, None);
    assert_eq!(m.handle_pointer(mv, Some((2, 0, 3)), &mut ctx).1, None);
    assert_eq!(m.hovered_piece(), None);
}

#[test]
fn network_indicator_icon_and_popup() {
    let mut ids = WidgetIds::new();
    let mut n = NetworkIndicator::new(&mut ids);
    assert_eq!(n.get_icon(), "❌");
    let mut s = NetworkStatus::default();
    s.connection_type = NetworkType::Wifi;
    n.set_status(s);
    assert_eq!(n.get_icon(), "📶");
    n.toggle();
    assert!(n.is_open());
    n.close();
    assert!(!n.is_open());
}

#[test]
fn panel_orientation_and_visibility() {
    let mut ids = WidgetIds::new();
    let mut p = Panel::new(&mut ids);
    assert!(p.is_horizontal());
    assert_eq!(p.shadow_direction(), -1);
    p.hide_panel();
    assert!(p.is_hidden());
    p.show();
    assert!(!p.is_hidden());
    let l = Panel::new(&mut ids).position(PanelPosition::Left);
    assert!(!l.is_horizontal());
    assert_eq!(l.shadow_direction(), 1);
}

#[test]
fn download_icons_by_extension() {
    assert_eq!(DownloadData::new("1", "report.PDF", "u").file_icon(), "📄");
    assert_eq!(DownloadData::new("1", "song.mp3", "u").file_icon(), "🎵");
    assert_eq!(DownloadData::new("1", "a.tar.zip", "u").file_icon(), "📦");
    assert_eq!(DownloadData::new("1", "setup.exe", "u").file_icon(), "⚙️");
    assert_eq!(DownloadData::new("1", "README", "u").file_icon(), "📁");
    assert_eq!(DownloadData::new("1", "photo.JPEG", "u").file_icon(), "🖼️");
}

#[test]
fn download_item_opens_completed_download() {
    let mut ids = WidgetIds::new();
    let mut data = DownloadData::new("d1", "a.zip", "u");
    data.state = DownloadState::Completed;
    let mut item = DownloadItem::new(&mut ids, data);
    let mut ctx = EventContext::new();
    assert_eq!(item.handle_pointer(left(MouseEventKind::Down, true), &mut ctx), (EventResult::Ignored, None));
    let mv = PointerEvent { kind: MouseEventKind::Move, button: None, in_bounds: true };
    item.handle_pointer(mv, &mut ctx);
    assert!(ctx.should_redraw);
    assert_eq!(item.handle_pointer(left(MouseEventKind::Down, true), &mut ctx), (EventResult::Handled, Some("d1".to_string())));
}

#[test]
fn split_pane_collapse_and_drag() {
    let mut ids = WidgetIds::new();
    let mut s = SplitPane::horizontal(&mut ids);
    s.collapse_first();
    assert_eq!(s.collapsed(), (false, false));
    let mut c = SplitPane::vertical(&mut ids).collapsible(true);
    c.collapse_first();
    assert_eq!(c.collapsed(), (true, false));
    assert_eq!(c.collapse_arrow(), "▼");
    c.collapse_second();
    assert_eq!(c.collapsed(), (false, true));
    c.expand();
    assert_eq!(c.collapsed(), (false, false));
    let mut ctx = EventContext::new();
    assert_eq!(c.handle_divider(left(MouseEventKind::Down, true), true, &mut ctx), (EventResult::Handled, DividerAction::StartDrag));
    assert!(c.is_dragging());
    let mv = PointerEvent { kind: MouseEventKind::Move, button: None, in_bounds: true };
    assert_eq!(c.handle_divider(mv, false, &mut ctx), (EventResult::Handled, DividerAction::Follow));
    assert_eq!(c.handle_divider(left(MouseEventKind::Up, true), false, &mut ctx), (EventResult::Handled, DividerAction::Nothing));
    assert!(!c.is_dragging());
}

#[test]
fn scroll_bars_and_time_scales() {
    assert!(ScrollBarVisibility::Always.shows(false));
    assert!(!ScrollBarVisibility::Hidden.shows(true));
    assert!(ScrollBarVisibility::Auto.shows(true));
    assert!(!ScrollBarVisibility::Auto.shows(false));
    assert_eq!(TimeScale::default().points(), 60);
    assert_eq!(TimeScale::Hour1.points(), 3600);
    assert_eq!(TimeScale::Minutes15.label(), "15m");
}

#[test]
fn bounded_window_keeps_newest_samples() {
    let mut v: Vec<u32> = Vec::new();
    for i in 0..5 {
        push_bounded(&mut v, i, 3);
    }
    assert_eq!(v, vec![2, 3, 4]);
    let mut w = vec![1u32, 2, 3, 4, 5];
    push_bounded(&mut w, 6, 2);
    assert_eq!(w, vec![5, 6]);
    let mut z: Vec<u32> = Vec::new();
    push_bounded(&mut z, 1, 0);
    assert!(z.is_empty());
}

#[test]
fn browser_tabs_status_and_titles() {
    let mut t = BrowserTabData::new("t", "A very long page title", "https://x");
    assert_eq!(t.status_icon(), None);
    assert_eq!(t.display_title(10), "A very lo…");
    t.is_playing_audio = true;
    assert_eq!(t.status_icon(), Some("🔊"));
    t.is_muted = true;
    assert_eq!(t.status_icon(), Some("🔇"));
    t.loading_state = TabLoadingState::Loading;
    assert_eq!(t.status_icon(), Some("⟳"));
}

#[test]
fn browser_tab_bar_select_close_and_new_tab() {
    let mut ids = WidgetIds::new();
    let mut bar = BrowserTabBar::new(&mut ids)
        .tab(BrowserTabData::new("a", "A", "u"))
        .tab(BrowserTabData::new("b", "B", "u"));
    let mut ctx = EventContext::new();
    let (r, a) = bar.handle_pointer(left(MouseEventKind::Down, true), 1, false, &mut ctx);
    assert_eq!(r, EventResult::Handled);
    assert!(matches!(a, BrowserTabBarAction::Select(ref id) if id == "b"));
    assert_eq!(bar.selected_id(), Some("b"));
    let (_, a) = bar.handle_pointer(left(MouseEventKind::Down, true), 1, true, &mut ctx);
    assert!(matches!(a, BrowserTabBarAction::NewTab));
    let middle = PointerEvent { kind: MouseEventKind::Down, button: Some(MouseButton::Middle), in_bounds: true };
    let (_, a) = bar.handle_pointer(middle, 0, false, &mut ctx);
    assert!(matches!(a, BrowserTabBarAction::Close(ref id) if id == "a"));
    let (r, _) = bar.handle_pointer(left(MouseEventKind::Down, true), 7, false, &mut ctx);
    assert_eq!(r, EventResult::Ignored);
}

#[test]
fn card_variants() {
    assert!(CardVariant::Default.should_draw_border());
    assert!(CardVariant::Default.should_draw_shadow());
    assert!(!CardVariant::GhostStyle.should_draw_border());
    assert!(!CardVariant::Outlined.should_draw_shadow());
    assert_eq!(CardVariant::Elevated.shadow_offset(), 8);
    assert_eq!(CardVariant::Glass.shadow_offset(), 2);
}

#[test]
fn desktop_with_image_wallpaper_and_icons() {
    let mut ids = WidgetIds::new();
    let desktop = Desktop::new(&mut ids, Wallpaper::color(0u32))
        .background(Wallpaper::image("/path/to/wallpaper.jpg", 0u32).with_mode(WallpaperMode::Fill))
        .icon(DesktopIcon::new("home", "Home", "🏠").at(0, 0))
        .icon(DesktopIcon::new("files", "Files", "📁").at(0, 1));
    assert!(matches!(desktop.get_wallpaper(), Wallpaper::Image { path, mode: WallpaperMode::Fill, .. } if path == "/path/to/wallpaper.jpg"));
    let icons = desktop.get_icons();
    assert_eq!(icons.len(), 2);
    assert_eq!(icons[0].position, (0, 0));
    assert_eq!(icons[1].position, (0, 1));
    assert_eq!(icons[1].name, "Files");
}

#[test]
fn start_menu_open_twice_is_open_once() {
    let mut ids = WidgetIds::new();
    let mut m = StartMenu::new(&mut ids).app(StartMenuItem::app("a", "Alpha"));
    m.set_search("x");
    m.open();
    m.open();
    assert!(m.is_open());
    assert_eq!(m.current_section(), StartMenuSection::Pinned);
    assert_eq!(m.get_filtered_apps().len(), 1);
}
