//! Tab bar widget: tabs with selection, hover and close buttons.
use vstd::prelude::*;

use super::{BaseView, EventContext, Widget, WidgetBase, WidgetId, WidgetIds, succ_id};
use crate::css::{added, cleared_state, ClassList, WidgetState};
use crate::event::{is_left, left_button, EventResult, MouseEventKind, PointerEvent};
use crate::theme::{plain, plain_color, ColorAdjust, ColorChoice, ThemeColor};
use crate::text::{opt_view, owned, str_eq};

verus! {

/// Where the tab bar sits.
#[derive(Debug, Clone, Copy, PartialEq, Eq, Structural)]
pub enum TabPosition {
    Top,
    Bottom,
    Left,
    Right,
}

impl Default for TabPosition {
    fn default() -> (r: Self)
        ensures
            r == TabPosition::Top,
    {
        TabPosition::Top
    }
}

/// How the tabs are drawn.
#[derive(Debug, Clone, Copy, PartialEq, Eq, Structural)]
pub enum TabVariant {
    Default,
    Boxed,
    Pills,
}

impl Default for TabVariant {
    fn default() -> (r: Self)
        ensures
            r == TabVariant::Default,
    {
        TabVariant::Default
    }
}

/// Abstract contents of a `Tab`.
pub struct TabView {
    pub id: Seq<char>,
    pub label: Seq<char>,
    pub icon: Option<Seq<char>>,
    pub closeable: bool,
    pub disabled: bool,
}

/// A tab.
#[derive(Debug, Clone)]
pub struct Tab {
    pub id: String,
    pub label: String,
    pub icon: Option<String>,
    pub closeable: bool,
    pub disabled: bool,
}

impl View for Tab {
    type V = TabView;

    open spec fn view(&self) -> TabView {
        TabView {
            id: self.id@,
            label: self.label@,
            icon: opt_view(&self.icon),
            closeable: self.closeable,
            disabled: self.disabled,
        }
    }
}

impl Tab {
    /// An enabled tab without icon or close button.
    pub fn new(id: &str, label: &str) -> (r: Self)
        ensures
            r@ == (TabView { id: id@, label: label@, icon: None, closeable: false, disabled: false }),
    {
        Tab { id: owned(id), label: owned(label), icon: None, closeable: false, disabled: false }
    }

    /// Set the icon.
    pub fn icon(self, icon: &str) -> (r: Self)
        ensures
            r@ == (TabView { icon: Some(icon@), ..self@ }),
    {
        Tab { icon: Some(owned(icon)), ..self }
    }

    /// Show or hide the close button.
    pub fn closeable(self, closeable: bool) -> (r: Self)
        ensures
            r@ == (TabView { closeable, ..self@ }),
    {
        Tab { closeable, ..self }
    }

    /// Set the disabled state.
    pub fn disabled(self, disabled: bool) -> (r: Self)
        ensures
            r@ == (TabView { disabled, ..self@ }),
    {
        Tab { disabled, ..self }
    }
}

/// What the owner of a tab bar is asked to do: tell the change handler of
/// a newly selected tab, or the close handler of a tab to close.
#[derive(Debug)]
pub enum TabsAction {
    Nothing,
    Change(String),
    Close(String),
}

/// The views of a sequence of tabs.
pub open spec fn tabs_view(s: Seq<Tab>) -> Seq<TabView> {
    s.map_values(|t: Tab| t@)
}

/// `i` is the first enabled position of `s`.
pub open spec fn first_enabled_at(s: Seq<TabView>, i: int) -> bool {
    0 <= i < s.len() && !s[i].disabled && forall|j: int| 0 <= j < i ==> s[j].disabled
}

/// The id of the first enabled tab of `s`, if any.
pub open spec fn first_enabled_id(s: Seq<TabView>) -> Option<Seq<char>> {
    if exists|i: int| first_enabled_at(s, i) {
        Some(s[choose|i: int| first_enabled_at(s, i)].id)
    } else {
        None
    }
}

/// The first enabled position is unique.
pub proof fn lemma_first_enabled_unique(s: Seq<TabView>, i: int)
    requires
        first_enabled_at(s, i),
    ensures
        first_enabled_id(s) == Some(s[i].id),
{
    let c = choose|k: int| first_enabled_at(s, k);
    assert(first_enabled_at(s, c));
    if c < i {
        assert(s[c].disabled);
    } else if i < c {
        assert(s[i].disabled);
    }
}

/// Some enabled tab of `s` has the id `id`.
pub open spec fn has_enabled(s: Seq<TabView>, id: Seq<char>) -> bool {
    exists|i: int| 0 <= i < s.len() && #[trigger] s[i].id == id && !s[i].disabled
}

/// The tab under the pointer, and whether the pointer is on its close
/// button (only a closeable tab has one).
pub open spec fn tab_hit(s: Seq<TabView>, hit: Option<(usize, bool)>) -> Option<(usize, bool)> {
    match hit {
        Some((i, c)) => if i < s.len() { Some((i, c && s[i as int].closeable)) } else { None },
        None => None,
    }
}

/// The background of a tab: set apart when selected (by the variant),
/// tinted when the pointer is over an enabled tab, else none.
pub open spec fn tab_background_of(variant: TabVariant, selected: bool, hovered: bool, disabled: bool) -> ColorChoice {
    if selected {
        plain(match variant {
            TabVariant::Default => ThemeColor::Background,
            TabVariant::Boxed => ThemeColor::Card,
            TabVariant::Pills => ThemeColor::Accent,
        })
    } else if hovered && !disabled {
        match variant {
            TabVariant::Pills => ColorChoice { color: ThemeColor::Accent, adjust: ColorAdjust::AlphaPercent(10) },
            _ => ColorChoice { color: ThemeColor::Muted, adjust: ColorAdjust::AlphaPercent(50) },
        }
    } else {
        plain(ThemeColor::Transparent)
    }
}

/// The label color of a tab: muted when disabled, the accent's foreground
/// on a selected pill, else the foreground.
pub open spec fn tab_text_color_of(variant: TabVariant, selected: bool, disabled: bool) -> ThemeColor {
    if disabled {
        ThemeColor::MutedForeground
    } else if selected && variant == TabVariant::Pills {
        ThemeColor::AccentForeground
    } else {
        ThemeColor::Foreground
    }
}

/// Abstract contents of a `Tabs`.
pub struct TabsView {
    pub base: BaseView,
    pub tabs: Seq<TabView>,
    pub selected_id: Option<Seq<char>>,
    pub position: TabPosition,
    pub variant: TabVariant,
    pub hovered_tab: Option<Seq<char>>,
    pub hovered_close: Option<Seq<char>>,
}

/// A bar of tabs.
#[derive(Debug)]
pub struct Tabs {
    base: WidgetBase,
    tabs: Vec<Tab>,
    selected_id: Option<String>,
    position: TabPosition,
    variant: TabVariant,
    hovered_tab: Option<String>,
    hovered_close: Option<String>,
}

impl View for Tabs {
    type V = TabsView;

    closed spec fn view(&self) -> TabsView {
        TabsView {
            base: self.base@,
            tabs: tabs_view(self.tabs@),
            selected_id: opt_view(&self.selected_id),
            position: self.position,
            variant: self.variant,
            hovered_tab: opt_view(&self.hovered_tab),
            hovered_close: opt_view(&self.hovered_close),
        }
    }
}

/// The first enabled position of `tabs`, if any.
fn first_enabled(tabs: &Vec<Tab>) -> (r: Option<usize>)
    ensures
        match r {
            Some(i) => i < tabs@.len() && first_enabled_id(tabs_view(tabs@)) == Some(tabs_view(tabs@)[i as int].id),
            None => first_enabled_id(tabs_view(tabs@)) is None,
        },
{
    let ghost s = tabs_view(tabs@);
    let mut i: usize = 0;
    while i < tabs.len()
        invariant
            i <= tabs.len(),
            s == tabs_view(tabs@),
            forall|j: int| 0 <= j < i ==> s[j].disabled,
        decreases tabs.len() - i,
    {
        if !tabs[i].disabled {
            proof {
                lemma_first_enabled_unique(s, i as int);
            }
            return Some(i);
        }
        i = i + 1;
    }
    assert(!exists|k: int| first_enabled_at(s, k));
    None
}

/// Whether two optional strings are equal.
fn opt_str_eq(a: &Option<String>, b: &Option<String>) -> (r: bool)
    ensures
        r == (opt_view(a) == opt_view(b)),
{
    match (a, b) {
        (Some(x), Some(y)) => str_eq(x.as_str(), y.as_str()),
        (None, None) => true,
        _ => false,
    }
}

impl Tabs {
    /// An empty bar at the top, in the default variant, with nothing selected.
    pub fn new(ids: &mut WidgetIds) -> (r: Self)
        ensures
            r@.base.id == old(ids)@,
            final(ids)@ == succ_id(old(ids)@),
            r@.base.classes == seq!["tabs"@],
            r@.base.element_id is None,
            r@.base.state == cleared_state(),
            r@.tabs.len() == 0,
            r@.selected_id is None,
            r@.position == TabPosition::Top,
            r@.variant == TabVariant::Default,
            r@.hovered_tab is None,
            r@.hovered_close is None,
    {
        Tabs {
            base: WidgetBase::new(ids).with_class("tabs"),
            tabs: Vec::new(),
            selected_id: None,
            position: TabPosition::Top,
            variant: TabVariant::Default,
            hovered_tab: None,
            hovered_close: None,
        }
    }

    /// Add a tab; it becomes selected when nothing is and it is enabled.
    pub fn tab(self, tab: Tab) -> (r: Self)
        ensures
            r@ == (TabsView {
                tabs: self@.tabs.push(tab@),
                selected_id: if self@.selected_id is None && !tab@.disabled { Some(tab@.id) } else { self@.selected_id },
                ..self@
            }),
    {
        let mut t = self;
        if t.selected_id.is_none() && !tab.disabled {
            t.selected_id = Some(tab.id.clone());
        }
        t.tabs.push(tab);
        assert(tabs_view(t.tabs@) =~= self@.tabs.push(tab@));
        t
    }

    /// Replace the tabs; when nothing is selected, the first enabled tab
    /// becomes selected.
    pub fn tabs(self, tabs: Vec<Tab>) -> (r: Self)
        ensures
            r@ == (TabsView {
                tabs: tabs_view(tabs@),
                selected_id: if self@.selected_id is None { first_enabled_id(tabs_view(tabs@)) } else { self@.selected_id },
                ..self@
            }),
    {
        let mut t = self;
        if t.selected_id.is_none() {
            match first_enabled(&tabs) {
                Some(i) => {
                    t.selected_id = Some(tabs[i].id.clone());
                },
                None => {},
            }
        }
        t.tabs = tabs;
        t
    }

    /// Set the selected tab id.
    pub fn selected(self, id: &str) -> (r: Self)
        ensures
            r@ == (TabsView { selected_id: Some(id@), ..self@ }),
    {
        Tabs { selected_id: Some(owned(id)), ..self }
    }

    /// Set where the bar sits.
    pub fn position(self, position: TabPosition) -> (r: Self)
        ensures
            r@ == (TabsView { position, ..self@ }),
    {
        Tabs { position, ..self }
    }

    /// Set the variant.
    pub fn variant(self, variant: TabVariant) -> (r: Self)
        ensures
            r@ == (TabsView { variant, ..self@ }),
    {
        Tabs { variant, ..self }
    }

    /// Add a CSS class.
    pub fn class(self, class: &str) -> (r: Self)
        ensures
            r@ == (TabsView { base: BaseView { classes: added(self@.base.classes, class@), ..self@.base }, ..self@ }),
    {
        let mut t = self;
        t.base.classes.add(class);
        t
    }

    /// The selected tab id, if any.
    pub fn selected_id(&self) -> (r: Option<&str>)
        ensures
            match r {
                Some(s) => self@.selected_id == Some(s@),
                None => self@.selected_id is None,
            },
    {
        match &self.selected_id {
            Some(s) => Some(s.as_str()),
            None => None,
        }
    }

    /// The tabs.
    pub fn get_tabs(&self) -> (r: &Vec<Tab>)
        ensures
            tabs_view(r@) == self@.tabs,
    {
        &self.tabs
    }

    /// Select the tab with id `id` when an enabled one has it; returns
    /// whether it did (and the change handler is to be told).
    pub fn select(&mut self, id: &str) -> (r: bool)
        ensures
            r == has_enabled(old(self)@.tabs, id@),
            final(self)@ == (if r { TabsView { selected_id: Some(id@), ..old(self)@ } } else { old(self)@ }),
    {
        let ghost s = self@.tabs;
        let mut i: usize = 0;
        while i < self.tabs.len()
            invariant
                i <= self.tabs.len(),
                s == tabs_view(self.tabs@),
                self@ == old(self)@,
                forall|j: int| 0 <= j < i ==> !(s[j].id == id@ && !s[j].disabled),
            decreases self.tabs.len() - i,
        {
            if str_eq(self.tabs[i].id.as_str(), id) && !self.tabs[i].disabled {
                assert(s[i as int].id == id@);
                self.selected_id = Some(self.tabs[i].id.clone());
                return true;
            }
            i = i + 1;
        }
        false
    }

    /// Handles a pointer event; `hit` is the tab under the pointer and
    /// whether the pointer lies in its close-button area. A move tracks the
    /// hovered tab and close button, a leave clears them, and releasing the
    /// left button on an enabled tab closes it (on its close button) or
    /// selects it. Returns the event result, the action, and whether the
    /// event goes on to the tab content.
    pub fn handle_pointer(&mut self, ev: PointerEvent, hit: Option<(usize, bool)>, ctx: &mut EventContext) -> (r: (EventResult, TabsAction, bool))
        ensures
            final(ctx).focus == old(ctx).focus,
            ({
                let v = old(self)@;
                let h = tab_hit(v.tabs, hit);
                match ev.kind {
                    MouseEventKind::Move => {
                        let nh = match h { Some((i, c)) => Some(v.tabs[i as int].id), None => None };
                        let nc = match h { Some((i, c)) => if c { Some(v.tabs[i as int].id) } else { None }, None => None };
                        let moved = if h is Some { nh != v.hovered_tab || nc != v.hovered_close } else { v.hovered_tab is Some };
                        &&& final(self)@ == (if moved { TabsView { hovered_tab: nh, hovered_close: nc, ..v } } else { v })
                        &&& r.0 == EventResult::Ignored && r.1 is Nothing && r.2
                        &&& final(ctx).should_redraw == (old(ctx).should_redraw || moved)
                    },
                    MouseEventKind::Leave => {
                        let moved = v.hovered_tab is Some || v.hovered_close is Some;
                        &&& final(self)@ == (if moved { TabsView { hovered_tab: None, hovered_close: None, ..v } } else { v })
                        &&& r.0 == EventResult::Ignored && r.1 is Nothing && r.2
                        &&& final(ctx).should_redraw == (old(ctx).should_redraw || moved)
                    },
                    MouseEventKind::Up if is_left(ev.button) && h is Some => {
                        let (i, c) = h->0;
                        let tab = v.tabs[i as int];
                        if tab.disabled {
                            &&& final(self)@ == v
                            &&& r.0 == EventResult::Ignored && r.1 is Nothing && !r.2
                            &&& final(ctx).should_redraw == old(ctx).should_redraw
                        } else if c {
                            &&& final(self)@ == v
                            &&& r.0 == EventResult::Handled && !r.2
                            &&& r.1 matches TabsAction::Close(s) && s@ == tab.id
                            &&& final(ctx).should_redraw
                        } else {
                            &&& final(self)@ == (TabsView { selected_id: Some(tab.id), ..v })
                            &&& r.0 == EventResult::Handled && !r.2
                            &&& r.1 matches TabsAction::Change(s) && s@ == tab.id
                            &&& final(ctx).should_redraw
                        }
                    },
                    _ => {
                        &&& final(self)@ == v
                        &&& r.0 == EventResult::Ignored && r.1 is Nothing && r.2
                        &&& final(ctx).should_redraw == old(ctx).should_redraw
                    },
                }
            }),
    {
        let h: Option<(usize, bool)> = match hit {
            Some((i, c)) => if i < self.tabs.len() { Some((i, c && self.tabs[i].closeable)) } else { None },
            None => None,
        };
        match ev.kind {
            MouseEventKind::Move => {
                match h {
                    Some((i, c)) => {
                        let nh = Some(self.tabs[i].id.clone());
                        let nc = if c { Some(self.tabs[i].id.clone()) } else { None };
                        if !opt_str_eq(&nh, &self.hovered_tab) || !opt_str_eq(&nc, &self.hovered_close) {
                            self.hovered_tab = nh;
                            self.hovered_close = nc;
                            ctx.request_redraw();
                        }
                    },
                    None => {
                        if self.hovered_tab.is_some() {
                            self.hovered_tab = None;
                            self.hovered_close = None;
                            ctx.request_redraw();
                        }
                    },
                }
                (EventResult::Ignored, TabsAction::Nothing, true)
            },
            MouseEventKind::Leave => {
                if self.hovered_tab.is_some() || self.hovered_close.is_some() {
                    self.hovered_tab = None;
                    self.hovered_close = None;
                    ctx.request_redraw();
                }
                (EventResult::Ignored, TabsAction::Nothing, true)
            },
            MouseEventKind::Up => {
                if left_button(ev.button) {
                    if let Some((i, c)) = h {
                        if self.tabs[i].disabled {
                            return (EventResult::Ignored, TabsAction::Nothing, false);
                        }
                        let id = self.tabs[i].id.clone();
                        if c {
                            ctx.request_redraw();
                            return (EventResult::Handled, TabsAction::Close(id), false);
                        }
                        let ghost s = self@.tabs;
                        assert(s[i as int].id == id@ && !s[i as int].disabled);
                        let changed = self.select(id.as_str());
                        ctx.request_redraw();
                        if changed {
                            return (EventResult::Handled, TabsAction::Change(id), false);
                        }
                        return (EventResult::Handled, TabsAction::Nothing, false);
                    }
                }
                (EventResult::Ignored, TabsAction::Nothing, true)
            },
            _ => (EventResult::Ignored, TabsAction::Nothing, true),
        }
    }
}

impl Widget for Tabs {
    fn id(&self) -> (r: WidgetId)
        ensures
            r == self@.base.id,
    {
        self.base.id
    }

    fn widget_type_name(&self) -> (r: &'static str)
        ensures
            r@ == "tabs"@,
    {
        "tabs"
    }

    fn element_id(&self) -> (r: Option<&str>)
        ensures
            match r {
                Some(s) => self@.base.element_id == Some(s@),
                None => self@.base.element_id is None,
            },
    {
        self.base.element_id_str()
    }

    fn classes(&self) -> (r: &ClassList)
        ensures
            r@ == self@.base.classes,
    {
        &self.base.classes
    }

    fn state(&self) -> (r: WidgetState)
        ensures
            r == self@.base.state,
    {
        self.base.state
    }
}

impl Tabs {
    /// Whether tab `i` is the selected one.
    fn is_selected_at(&self, i: usize) -> (r: bool)
        requires
            i < self@.tabs.len(),
        ensures
            r == (self@.selected_id == Some(self@.tabs[i as int].id)),
    {
        match &self.selected_id {
            Some(s) => str_eq(s.as_str(), self.tabs[i].id.as_str()),
            None => false,
        }
    }

    /// Whether the pointer is over tab `i`.
    fn is_hovered_at(&self, i: usize) -> (r: bool)
        requires
            i < self@.tabs.len(),
        ensures
            r == (self@.hovered_tab == Some(self@.tabs[i as int].id)),
    {
        match &self.hovered_tab {
            Some(s) => str_eq(s.as_str(), self.tabs[i].id.as_str()),
            None => false,
        }
    }

    /// The background of tab `i` (see `tab_background_of`).
    pub fn tab_background(&self, i: usize) -> (r: ColorChoice)
        requires
            i < self@.tabs.len(),
        ensures
            r == tab_background_of(
                self@.variant,
                self@.selected_id == Some(self@.tabs[i as int].id),
                self@.hovered_tab == Some(self@.tabs[i as int].id),
                self@.tabs[i as int].disabled,
            ),
    {
        let selected = self.is_selected_at(i);
        let hovered = self.is_hovered_at(i);
        if selected {
            let c = match self.variant {
                TabVariant::Default => ThemeColor::Background,
                TabVariant::Boxed => ThemeColor::Card,
                TabVariant::Pills => ThemeColor::Accent,
            };
            plain_color(c)
        } else if hovered && !self.tabs[i].disabled {
            match self.variant {
                TabVariant::Pills => ColorChoice { color: ThemeColor::Accent, adjust: ColorAdjust::AlphaPercent(10) },
                _ => ColorChoice { color: ThemeColor::Muted, adjust: ColorAdjust::AlphaPercent(50) },
            }
        } else {
            plain_color(ThemeColor::Transparent)
        }
    }

    /// The label and icon color of tab `i` (see `tab_text_color_of`).
    pub fn tab_text_color(&self, i: usize) -> (r: ThemeColor)
        requires
            i < self@.tabs.len(),
        ensures
            r == tab_text_color_of(self@.variant, self@.selected_id == Some(self@.tabs[i as int].id), self@.tabs[i as int].disabled),
    {
        let selected = self.is_selected_at(i);
        if self.tabs[i].disabled {
            ThemeColor::MutedForeground
        } else if selected && self.variant == TabVariant::Pills {
            ThemeColor::AccentForeground
        } else {
            ThemeColor::Foreground
        }
    }

    /// Whether tab `i` is underlined: the selected tab of the default
    /// variant.
    pub fn shows_underline(&self, i: usize) -> (r: bool)
        requires
            i < self@.tabs.len(),
        ensures
            r == (self@.variant == TabVariant::Default && self@.selected_id == Some(self@.tabs[i as int].id)),
    {
        self.variant == TabVariant::Default && self.is_selected_at(i)
    }

    /// The color of the close mark of tab `i`: destructive under the
    /// pointer, else muted.
    pub fn close_color(&self, i: usize) -> (r: ThemeColor)
        requires
            i < self@.tabs.len(),
        ensures
            r == (if self@.hovered_close == Some(self@.tabs[i as int].id) { ThemeColor::Destructive } else { ThemeColor::MutedForeground }),
    {
        let over = match &self.hovered_close {
            Some(s) => str_eq(s.as_str(), self.tabs[i].id.as_str()),
            None => false,
        };
        if over { ThemeColor::Destructive } else { ThemeColor::MutedForeground }
    }
}

} // verus!
