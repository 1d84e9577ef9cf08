//! Desktop widget: a wallpaper and a grid of icons with selection, hover
//! and double-click detection.
use vstd::prelude::*;

use std::time::Instant;

use super::{BaseView, EventContext, Widget, WidgetBase, WidgetId, WidgetIds, succ_id};
use crate::css::{added, cleared_state, ClassList, WidgetState};
use crate::event::{EventResult, MouseButton, MouseEventKind, PointerEvent};
use crate::text::{opt_view, owned, str_eq};
use crate::time::{elapsed_between, instant_now, millis_of};

verus! {

/// How an image wallpaper is fitted to the screen.
#[derive(Debug, Clone, Copy, PartialEq, Eq, Structural)]
pub enum WallpaperMode {
    Fill,
    Fit,
    Stretch,
    Tile,
    Center,
    Span,
}

impl Default for WallpaperMode {
    fn default() -> (r: Self)
        ensures
            r == WallpaperMode::Fill,
    {
        WallpaperMode::Fill
    }
}

/// The direction of a gradient wallpaper.
#[derive(Debug, Clone, Copy, PartialEq, Eq, Structural)]
pub enum GradientDirection {
    ToBottom,
    ToTop,
    ToRight,
    ToLeft,
    ToBottomRight,
    ToBottomLeft,
    ToTopRight,
    ToTopLeft,
    Radial,
}

impl Default for GradientDirection {
    fn default() -> (r: Self)
        ensures
            r == GradientDirection::ToBottom,
    {
        GradientDirection::ToBottom
    }
}

/// A desktop wallpaper over colors of type `C`; an image is named by its
/// path.
#[derive(Debug, Clone)]
pub enum Wallpaper<C> {
    Color(C),
    Image { path: String, mode: WallpaperMode, fallback: C },
    Gradient { start: C, end: C, direction: GradientDirection },
    ImageWithOverlay { path: String, mode: WallpaperMode, overlay: C, fallback: C },
}

impl<C> Wallpaper<C> {
    /// A solid color.
    pub fn color(color: C) -> (r: Self)
        ensures
            r == Wallpaper::Color(color),
    {
        Wallpaper::Color(color)
    }

    /// An image in fill mode, drawn in `fallback` until it is shown.
    pub fn image(path: &str, fallback: C) -> (r: Self)
        ensures
            r matches Wallpaper::Image { path: p, mode, fallback: f }
                && p@ == path@ && mode == WallpaperMode::Fill && f == fallback,
    {
        Wallpaper::Image { path: owned(path), mode: WallpaperMode::Fill, fallback }
    }

    /// An image in the given mode, drawn in `fallback` until it is shown.
    pub fn image_with_mode(path: &str, mode: WallpaperMode, fallback: C) -> (r: Self)
        ensures
            r matches Wallpaper::Image { path: p, mode: m, fallback: f }
                && p@ == path@ && m == mode && f == fallback,
    {
        Wallpaper::Image { path: owned(path), mode, fallback }
    }

    /// A gradient towards the bottom.
    pub fn gradient(start: C, end: C) -> (r: Self)
        ensures
            r == (Wallpaper::Gradient { start, end, direction: GradientDirection::ToBottom }),
    {
        Wallpaper::Gradient { start, end, direction: GradientDirection::ToBottom }
    }

    /// A gradient in the given direction.
    pub fn gradient_with_direction(start: C, end: C, direction: GradientDirection) -> (r: Self)
        ensures
            r == (Wallpaper::Gradient { start, end, direction }),
    {
        Wallpaper::Gradient { start, end, direction }
    }

    /// An image in fill mode under a color overlay, drawn in `fallback`
    /// until it is shown.
    pub fn image_with_overlay(path: &str, overlay: C, fallback: C) -> (r: Self)
        ensures
            r matches Wallpaper::ImageWithOverlay { path: p, mode, overlay: o, fallback: f }
                && p@ == path@ && mode == WallpaperMode::Fill && o == overlay && f == fallback,
    {
        Wallpaper::ImageWithOverlay { path: owned(path), mode: WallpaperMode::Fill, overlay, fallback }
    }

    /// The same wallpaper in another mode; only images have one.
    pub fn with_mode(self, mode: WallpaperMode) -> (r: Self)
        ensures
            r == (match self {
                Wallpaper::Image { path, fallback, .. } => Wallpaper::Image { path, mode, fallback },
                Wallpaper::ImageWithOverlay { path, overlay, fallback, .. } =>
                    Wallpaper::ImageWithOverlay { path, mode, overlay, fallback },
                other => other,
            }),
    {
        match self {
            Wallpaper::Image { path, fallback, .. } => Wallpaper::Image { path, mode, fallback },
            Wallpaper::ImageWithOverlay { path, overlay, fallback, .. } =>
                Wallpaper::ImageWithOverlay { path, mode, overlay, fallback },
            other => other,
        }
    }

    /// The same wallpaper with another fallback color; only images have one.
    pub fn with_fallback(self, fallback: C) -> (r: Self)
        ensures
            r == (match self {
                Wallpaper::Image { path, mode, .. } => Wallpaper::Image { path, mode, fallback },
                Wallpaper::ImageWithOverlay { path, mode, overlay, .. } =>
                    Wallpaper::ImageWithOverlay { path, mode, overlay, fallback },
                other => other,
            }),
    {
        match self {
            Wallpaper::Image { path, mode, .. } => Wallpaper::Image { path, mode, fallback },
            Wallpaper::ImageWithOverlay { path, mode, overlay, .. } =>
                Wallpaper::ImageWithOverlay { path, mode, overlay, fallback },
            other => other,
        }
    }

    /// The same wallpaper in another direction; only gradients have one.
    pub fn with_direction(self, direction: GradientDirection) -> (r: Self)
        ensures
            r == (match self {
                Wallpaper::Gradient { start, end, .. } => Wallpaper::Gradient { start, end, direction },
                other => other,
            }),
    {
        match self {
            Wallpaper::Gradient { start, end, .. } => Wallpaper::Gradient { start, end, direction },
            other => other,
        }
    }
}

/// Abstract contents of a `DesktopIcon`.
pub struct DesktopIconView {
    pub id: Seq<char>,
    pub name: Seq<char>,
    pub icon: Seq<char>,
    pub position: (usize, usize),
    pub selected: bool,
}

/// An icon on the desktop, placed on a grid cell (column, row).
#[derive(Debug)]
pub struct DesktopIcon {
    pub id: String,
    pub name: String,
    pub icon: String,
    pub position: (usize, usize),
    pub selected: bool,
}

impl View for DesktopIcon {
    type V = DesktopIconView;

    open spec fn view(&self) -> DesktopIconView {
        DesktopIconView { id: self.id@, name: self.name@, icon: self.icon@, position: self.position, selected: self.selected }
    }
}

impl Clone for DesktopIcon {
    fn clone(&self) -> (r: Self)
        ensures
            r@ == self@,
    {
        DesktopIcon {
            id: self.id.clone(),
            name: self.name.clone(),
            icon: self.icon.clone(),
            position: (self.position.0, self.position.1),
            selected: self.selected,
        }
    }
}

impl DesktopIcon {
    /// An unselected icon in the top-left cell.
    pub fn new(id: &str, name: &str, icon: &str) -> (r: Self)
        ensures
            r@ == (DesktopIconView { id: id@, name: name@, icon: icon@, position: (0, 0), selected: false }),
    {
        DesktopIcon { id: owned(id), name: owned(name), icon: owned(icon), position: (0, 0), selected: false }
    }

    /// Place the icon on a cell.
    pub fn at(self, col: usize, row: usize) -> (r: Self)
        ensures
            r@ == (DesktopIconView { position: (col, row), ..self@ }),
    {
        DesktopIcon { position: (col, row), ..self }
    }
}

/// The views of a sequence of icons.
pub open spec fn desktop_icons_view(s: Seq<DesktopIcon>) -> Seq<DesktopIconView> {
    s.map_values(|x: DesktopIcon| x@)
}

/// The icons with exactly those with id `id` selected.
pub open spec fn selected_only(s: Seq<DesktopIconView>, id: Seq<char>) -> Seq<DesktopIconView> {
    s.map_values(|x: DesktopIconView| DesktopIconView { selected: x.id == id, ..x })
}

/// The icons with none selected.
pub open spec fn none_selected(s: Seq<DesktopIconView>) -> Seq<DesktopIconView> {
    s.map_values(|x: DesktopIconView| DesktopIconView { selected: false, ..x })
}

/// The longest gap, in milliseconds, between the two presses of a double-click.
pub const DOUBLE_CLICK_MILLIS: u128 = 500;

/// What the owner of a desktop is asked to do: tell the click or
/// double-click handler of an icon id, or the right-click handler.
#[derive(Debug)]
pub enum DesktopAction {
    Nothing,
    Click(String),
    DoubleClick(String),
    RightClick,
}

/// A `DesktopAction` as contracts see it.
pub enum DesktopActionView {
    Nothing,
    Click(Seq<char>),
    DoubleClick(Seq<char>),
    RightClick,
}

/// The view of an action.
pub open spec fn action_view(a: &DesktopAction) -> DesktopActionView {
    match a {
        DesktopAction::Nothing => DesktopActionView::Nothing,
        DesktopAction::Click(s) => DesktopActionView::Click(s@),
        DesktopAction::DoubleClick(s) => DesktopActionView::DoubleClick(s@),
        DesktopAction::RightClick => DesktopActionView::RightClick,
    }
}

/// Abstract contents of a `Desktop`.
pub struct DesktopView<C> {
    pub base: BaseView,
    pub wallpaper: Wallpaper<C>,
    pub icons: Seq<DesktopIconView>,
    pub hovered_icon: Option<Seq<char>>,
    pub last_click_time: Option<Instant>,
    pub last_click_id: Option<Seq<char>>,
}

/// The outcome of one pointer event on the desktop.
pub struct DesktopStep<C> {
    pub view: DesktopView<C>,
    pub result: EventResult,
    pub action: DesktopActionView,
    pub redraw: bool,
}

/// The icon under the pointer: the reported one when the desktop has it.
pub open spec fn desktop_hit(hit: Option<usize>, len: nat) -> Option<usize> {
    match hit {
        Some(i) => if i < len { Some(i) } else { None },
        None => None,
    }
}

/// A press on the icon `id` completes a double-click: the last click was
/// on the same icon, `elapsed` (the time since it) is known and shorter
/// than the double-click gap.
pub open spec fn is_double_click<C>(v: DesktopView<C>, id: Seq<char>, elapsed: Option<u128>) -> bool {
    &&& v.last_click_time is Some
    &&& v.last_click_id == Some(id)
    &&& elapsed matches Some(ms) && ms < DOUBLE_CLICK_MILLIS
}

/// One pointer event, at clock reading `now`, `elapsed` milliseconds
/// after the last click (when there was one). A move tracks the hovered
/// icon; a left press on an icon is a double-click (which resets the click
/// memory) or a click (which selects that icon alone and remembers it); a
/// left press elsewhere clears the selection; a right press asks for the
/// right-click handler.
pub open spec fn desktop_step<C>(v: DesktopView<C>, ev: PointerEvent, hit: Option<usize>, now: Instant, elapsed: Option<u128>) -> DesktopStep<C> {
    let h = desktop_hit(hit, v.icons.len());
    let idle = DesktopStep { view: v, result: EventResult::Ignored, action: DesktopActionView::Nothing, redraw: false };
    match ev.kind {
        MouseEventKind::Move => {
            let nh = match h { Some(i) => Some(v.icons[i as int].id), None => None };
            DesktopStep { view: DesktopView { hovered_icon: nh, ..v }, redraw: nh != v.hovered_icon, ..idle }
        },
        MouseEventKind::Down => match ev.button {
            Some(MouseButton::Left) => match h {
                Some(i) => {
                    let id = v.icons[i as int].id;
                    if is_double_click(v, id, elapsed) {
                        DesktopStep {
                            view: DesktopView { last_click_time: None, last_click_id: None, ..v },
                            result: EventResult::Handled,
                            action: DesktopActionView::DoubleClick(id),
                            redraw: true,
                        }
                    } else {
                        DesktopStep {
                            view: DesktopView {
                                icons: selected_only(v.icons, id),
                                last_click_time: Some(now),
                                last_click_id: Some(id),
                                ..v
                            },
                            result: EventResult::Handled,
                            action: DesktopActionView::Click(id),
                            redraw: true,
                        }
                    }
                },
                None => DesktopStep { view: DesktopView { icons: none_selected(v.icons), ..v }, redraw: true, ..idle },
            },
            Some(MouseButton::Right) => DesktopStep { result: EventResult::Handled, action: DesktopActionView::RightClick, ..idle },
            _ => idle,
        },
        _ => idle,
    }
}

/// A desktop with a wallpaper and icons.
#[derive(Debug)]
pub struct Desktop<C> {
    base: WidgetBase,
    wallpaper: Wallpaper<C>,
    icons: Vec<DesktopIcon>,
    hovered_icon: Option<String>,
    last_click_time: Option<Instant>,
    last_click_id: Option<String>,
}

impl<C> View for Desktop<C> {
    type V = DesktopView<C>;

    closed spec fn view(&self) -> DesktopView<C> {
        DesktopView {
            base: self.base@,
            wallpaper: self.wallpaper,
            icons: desktop_icons_view(self.icons@),
            hovered_icon: opt_view(&self.hovered_icon),
            last_click_time: self.last_click_time,
            last_click_id: opt_view(&self.last_click_id),
        }
    }
}

/// Sets each icon's selected flag to whether its id is `id` (or to false
/// for `None`).
fn select_where(icons: &mut Vec<DesktopIcon>, id: Option<&str>)
    ensures
        desktop_icons_view(final(icons)@) == (match id {
            Some(t) => selected_only(desktop_icons_view(old(icons)@), t@),
            None => none_selected(desktop_icons_view(old(icons)@)),
        }),
{
    let ghost s = desktop_icons_view(old(icons)@);
    let mut i: usize = 0;
    while i < icons.len()
        invariant
            i <= icons.len(),
            icons@.len() == s.len(),
            forall|j: int| 0 <= j < i ==> #[trigger] desktop_icons_view(icons@)[j] == (DesktopIconView {
                selected: match id { Some(t) => s[j].id == t@, None => false },
                ..s[j]
            }),
            forall|j: int| i <= j < s.len() ==> #[trigger] desktop_icons_view(icons@)[j] == s[j],
        decreases icons.len() - i,
    {
        let sel = match id {
            Some(t) => str_eq(icons[i].id.as_str(), t),
            None => false,
        };
        let ghost before = icons@;
        assert(desktop_icons_view(before)[i as int] == s[i as int]);
        assert(before[i as int]@ == s[i as int]);
        assert(sel == match id { Some(t) => s[i as int].id == t@, None => false });
        icons[i].selected = sel;
        assert(icons@ == before.update(i as int, DesktopIcon { selected: sel, ..before[i as int] }));
        assert(desktop_icons_view(icons@)[i as int] == (DesktopIconView { selected: sel, ..s[i as int] }));
        assert forall|j: int| 0 <= j < i implies #[trigger] desktop_icons_view(icons@)[j] == (DesktopIconView {
                selected: match id { Some(t) => s[j].id == t@, None => false },
                ..s[j]
            }) by {
            assert(icons@[j] == before[j]);
            assert(desktop_icons_view(before)[j] == desktop_icons_view(icons@)[j]);
        }
        assert forall|j: int| i < j < s.len() implies #[trigger] desktop_icons_view(icons@)[j] == s[j] by {
            assert(icons@[j] == before[j]);
            assert(desktop_icons_view(before)[j] == desktop_icons_view(icons@)[j]);
        }
        i = i + 1;
    }
    proof {
        match id {
            Some(t) => assert(desktop_icons_view(icons@) =~= selected_only(s, t@)),
            None => assert(desktop_icons_view(icons@) =~= none_selected(s)),
        }
    }
}

impl<C> Desktop<C> {
    /// A desktop with the given wallpaper and no icons.
    pub fn new(ids: &mut WidgetIds, wallpaper: Wallpaper<C>) -> (r: Self)
        ensures
            r@.base.id == old(ids)@,
            final(ids)@ == succ_id(old(ids)@),
            r@.base.classes == seq!["desktop"@],
            r@.base.element_id is None,
            r@.base.state == cleared_state(),
            r@.wallpaper == wallpaper,
            r@.icons.len() == 0,
            r@.hovered_icon is None,
            r@.last_click_time is None,
            r@.last_click_id is None,
    {
        Desktop {
            base: WidgetBase::new(ids).with_class("desktop"),
            wallpaper,
            icons: Vec::new(),
            hovered_icon: None,
            last_click_time: None,
            last_click_id: None,
        }
    }

    /// Set the wallpaper.
    pub fn background(self, wallpaper: Wallpaper<C>) -> (r: Self)
        ensures
            r@ == (DesktopView { wallpaper, ..self@ }),
    {
        Desktop { wallpaper, ..self }
    }

    /// Set a solid color wallpaper.
    pub fn wallpaper_color(self, color: C) -> (r: Self)
        ensures
            r@ == (DesktopView { wallpaper: Wallpaper::Color(color), ..self@ }),
    {
        Desktop { wallpaper: Wallpaper::color(color), ..self }
    }

    /// Set an image wallpaper in fill mode, drawn in `fallback` until it
    /// is shown.
    pub fn wallpaper_image(self, path: &str, fallback: C) -> (r: Self)
        ensures
            r@.wallpaper matches Wallpaper::Image { path: p, mode, fallback: f }
                && p@ == path@ && mode == WallpaperMode::Fill && f == fallback,
            r@ == (DesktopView { wallpaper: r@.wallpaper, ..self@ }),
    {
        Desktop { wallpaper: Wallpaper::image(path, fallback), ..self }
    }

    /// Set an image wallpaper in the given mode, drawn in `fallback` until
    /// it is shown.
    pub fn wallpaper_image_with_mode(self, path: &str, mode: WallpaperMode, fallback: C) -> (r: Self)
        ensures
            r@.wallpaper matches Wallpaper::Image { path: p, mode: m, fallback: f }
                && p@ == path@ && m == mode && f == fallback,
            r@ == (DesktopView { wallpaper: r@.wallpaper, ..self@ }),
    {
        Desktop { wallpaper: Wallpaper::image_with_mode(path, mode, fallback), ..self }
    }

    /// Set a gradient wallpaper.
    pub fn wallpaper_gradient(self, start: C, end: C, direction: GradientDirection) -> (r: Self)
        ensures
            r@ == (DesktopView { wallpaper: Wallpaper::Gradient { start, end, direction }, ..self@ }),
    {
        Desktop { wallpaper: Wallpaper::gradient_with_direction(start, end, direction), ..self }
    }

    /// Add an icon.
    pub fn icon(self, icon: DesktopIcon) -> (r: Self)
        ensures
            r@ == (DesktopView { icons: self@.icons.push(icon@), ..self@ }),
    {
        let mut d = self;
        d.icons.push(icon);
        assert(desktop_icons_view(d.icons@) =~= self@.icons.push(icon@));
        d
    }

    /// Replace the icons.
    pub fn icons(self, icons: Vec<DesktopIcon>) -> (r: Self)
        ensures
            r@ == (DesktopView { icons: desktop_icons_view(icons@), ..self@ }),
    {
        Desktop { icons, ..self }
    }

    /// Add a CSS class.
    pub fn class(self, class: &str) -> (r: Self)
        ensures
            r@ == (DesktopView { base: BaseView { classes: added(self@.base.classes, class@), ..self@.base }, ..self@ }),
    {
        let mut d = self;
        d.base.classes.add(class);
        d
    }

    /// The wallpaper.
    pub fn get_wallpaper(&self) -> (r: &Wallpaper<C>)
        ensures
            *r == self@.wallpaper,
    {
        &self.wallpaper
    }

    /// Replace the wallpaper; the wallpaper handler is then told of it.
    pub fn set_wallpaper(&mut self, wallpaper: Wallpaper<C>)
        ensures
            final(self)@ == (DesktopView { wallpaper, ..old(self)@ }),
    {
        self.wallpaper = wallpaper;
    }

    /// The icons.
    pub fn get_icons(&self) -> (r: &Vec<DesktopIcon>)
        ensures
            desktop_icons_view(r@) == self@.icons,
    {
        &self.icons
    }

    /// Select the icons with id `id`, and no other.
    pub fn select_icon(&mut self, id: &str)
        ensures
            final(self)@ == (DesktopView { icons: selected_only(old(self)@.icons, id@), ..old(self)@ }),
    {
        select_where(&mut self.icons, Some(id));
    }

    /// Unselect every icon.
    pub fn clear_selection(&mut self)
        ensures
            final(self)@ == (DesktopView { icons: none_selected(old(self)@.icons), ..old(self)@ }),
    {
        select_where(&mut self.icons, None);
    }

    /// Handles a pointer event at clock reading `now`, `elapsed`
    /// milliseconds after the last click; `hit` is the icon under the
    /// pointer, if any (see `desktop_step`).
    pub fn pointer_step(&mut self, ev: PointerEvent, hit: Option<usize>, now: Instant, elapsed: Option<u128>, ctx: &mut EventContext) -> (r: (EventResult, DesktopAction))
        ensures
            ({
                let st = desktop_step(old(self)@, ev, hit, now, elapsed);
                &&& final(self)@ == st.view
                &&& r.0 == st.result
                &&& action_view(&r.1) == st.action
                &&& final(ctx).should_redraw == (old(ctx).should_redraw || st.redraw)
                &&& final(ctx).focus == old(ctx).focus
            }),
    {
        let h: Option<usize> = match hit {
            Some(i) => if i < self.icons.len() { Some(i) } else { None },
            None => None,
        };
        match ev.kind {
            MouseEventKind::Move => {
                let nh: Option<String> = match h {
                    Some(i) => Some(self.icons[i].id.clone()),
                    None => None,
                };
                let same = match (&nh, &self.hovered_icon) {
                    (Some(a), Some(b)) => str_eq(a.as_str(), b.as_str()),
                    (None, None) => true,
                    _ => false,
                };
                if !same {
                    self.hovered_icon = nh;
                    ctx.request_redraw();
                }
                (EventResult::Ignored, DesktopAction::Nothing)
            },
            MouseEventKind::Down => match ev.button {
                Some(MouseButton::Left) => match h {
                    Some(i) => {
                        let id = self.icons[i].id.clone();
                        let same_icon = match &self.last_click_id {
                            Some(last) => str_eq(last.as_str(), id.as_str()),
                            None => false,
                        };
                        let quick = match elapsed {
                            Some(ms) => ms < DOUBLE_CLICK_MILLIS,
                            None => false,
                        };
                        ctx.request_redraw();
                        if self.last_click_time.is_some() && same_icon && quick {
                            self.last_click_time = None;
                            self.last_click_id = None;
                            (EventResult::Handled, DesktopAction::DoubleClick(id))
                        } else {
                            self.select_icon(id.as_str());
                            self.last_click_time = Some(now);
                            self.last_click_id = Some(id.clone());
                            (EventResult::Handled, DesktopAction::Click(id))
                        }
                    },
                    None => {
                        self.clear_selection();
                        ctx.request_redraw();
                        (EventResult::Ignored, DesktopAction::Nothing)
                    },
                },
                Some(MouseButton::Right) => (EventResult::Handled, DesktopAction::RightClick),
                _ => (EventResult::Ignored, DesktopAction::Nothing),
            },
            _ => (EventResult::Ignored, DesktopAction::Nothing),
        }
    }

    /// Handles a pointer event, reading the monotonic clock for a left
    /// press on an icon; `hit` is the icon under the pointer, if any. The
    /// outcome is that of `pointer_step` for some clock reading and the
    /// time measured since the last click (taken exactly when a click is remembered).
    pub fn handle_pointer(&mut self, ev: PointerEvent, hit: Option<usize>, ctx: &mut EventContext) -> (r: (EventResult, DesktopAction))
        ensures
            exists|now: Instant, elapsed: Option<u128>| {
                let st = #[trigger] desktop_step(old(self)@, ev, hit, now, elapsed);
                &&& (old(self)@.last_click_time is None <==> elapsed is None)
                &&& final(self)@ == st.view
                &&& r.0 == st.result
                &&& action_view(&r.1) == st.action
                &&& final(ctx).should_redraw == (old(ctx).should_redraw || st.redraw)
                &&& final(ctx).focus == old(ctx).focus
            },
    {
        let now = instant_now();
        let elapsed: Option<u128> = match &self.last_click_time {
            Some(t) => {
                let d = elapsed_between(&now, t);
                Some(millis_of(&d))
            },
            None => None,
        };
        let ghost v = self@;
        let r = self.pointer_step(ev, hit, now, elapsed, ctx);
        assert(v.last_click_time is None <==> elapsed is None);
        r
    }
}

/// A click selects exactly the clicked icon; a press on empty space leaves
/// no icon selected; two quick presses on one icon make a double-click.
pub proof fn lemma_click_then_double_click<C>(v: DesktopView<C>, ev: PointerEvent, i: usize, t0: Instant, t1: Instant, gap: u128)
    requires
        ev.kind == MouseEventKind::Down,
        ev.button == Some(MouseButton::Left),
        i < v.icons.len(),
        !is_double_click(v, v.icons[i as int].id, None),
        gap < DOUBLE_CLICK_MILLIS,
    ensures
        ({
            let first = desktop_step(v, ev, Some(i), t0, None);
            let second = desktop_step(first.view, ev, Some(i), t1, Some(gap));
            &&& first.action == DesktopActionView::Click(v.icons[i as int].id)
            &&& forall|j: int| 0 <= j < v.icons.len() ==>
                ((#[trigger] first.view.icons[j]).selected <==> v.icons[j].id == v.icons[i as int].id)
            &&& second.action == DesktopActionView::DoubleClick(v.icons[i as int].id)
            &&& second.view.last_click_time is None
        }),
        forall|j: int| 0 <= j < v.icons.len() ==> !(#[trigger] desktop_step(v, ev, None, t0, None).view.icons[j]).selected,
{
    let first = desktop_step(v, ev, Some(i), t0, None);
    assert(first.view.icons.len() == v.icons.len());
    assert(first.view.icons[i as int].id == v.icons[i as int].id);
}

/// A left press on an icon other than the one clicked last is a click on
/// it and never a double-click, however short the gap, and so is a press
/// on the same icon 500 ms or more after the last click: it selects
/// exactly the icons with its id, keeps every icon otherwise as it was,
/// and is remembered as the last click.
pub proof fn lemma_press_on_other_icon_is_click<C>(v: DesktopView<C>, ev: PointerEvent, i: usize, now: Instant, elapsed: Option<u128>)
    requires
        ev.kind == MouseEventKind::Down,
        ev.button == Some(MouseButton::Left),
        i < v.icons.len(),
        v.last_click_id != Some(v.icons[i as int].id) || !(elapsed matches Some(ms) && ms < 500),
    ensures
        ({
            let id = v.icons[i as int].id;
            let s = desktop_step(v, ev, Some(i), now, elapsed);
            &&& s.action == DesktopActionView::Click(id)
            &&& s.result == EventResult::Handled
            &&& s.view.icons.len() == v.icons.len()
            &&& forall|j: int| 0 <= j < v.icons.len() ==>
                ((#[trigger] s.view.icons[j]).selected <==> v.icons[j].id == id)
                && s.view.icons[j] == (DesktopIconView { selected: s.view.icons[j].selected, ..v.icons[j] })
            &&& s.view.last_click_id == Some(id)
            &&& s.view.last_click_time == Some(now)
        }),
{
}

impl<C> Widget for Desktop<C> {
    fn id(&self) -> (r: WidgetId)
        ensures
            r == self@.base.id,
    {
        self.base.id
    }

    fn widget_type_name(&self) -> (r: &'static str)
        ensures
            r@ == "desktop"@,
    {
        "desktop"
    }

    fn element_id(&self) -> (r: Option<&str>)
        ensures
            match r {
                Some(s) => self@.base.element_id == Some(s@),
                None => self@.base.element_id is None,
            },
    {
        self.base.element_id_str()
    }

    fn classes(&self) -> (r: &ClassList)
        ensures
            r@ == self@.base.classes,
    {
        &self.base.classes
    }

    fn state(&self) -> (r: WidgetState)
        ensures
            r == self@.base.state,
    {
        self.base.state
    }
}

} // verus!
