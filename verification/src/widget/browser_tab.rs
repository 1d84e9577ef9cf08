//! Browser tab bar widget for tabbed browsing.
use vstd::prelude::*;

use super::{BaseView, EventContext, Widget, WidgetBase, WidgetId, WidgetIds, succ_id};
use crate::css::{cleared_state, ClassList, WidgetState};
use crate::event::{EventResult, MouseButton, MouseEventKind, PointerEvent};
use crate::text::{opt_view, owned, truncate_with_ellipsis, truncated};

verus! {

/// Loading state of a browser tab.
#[derive(Debug, Clone, Copy, PartialEq, Eq, Structural)]
pub enum TabLoadingState {
    Idle,
    Loading,
    Complete,
    Error,
}

impl Default for TabLoadingState {
    fn default() -> (r: Self)
        ensures
            r == TabLoadingState::Idle,
    {
        TabLoadingState::Idle
    }
}

/// Abstract contents of a `BrowserTabData`.
pub struct BrowserTabDataView {
    pub id: Seq<char>,
    pub title: Seq<char>,
    pub url: Seq<char>,
    pub favicon: Option<Seq<char>>,
    pub loading_state: TabLoadingState,
    pub is_pinned: bool,
    pub is_muted: bool,
    pub is_playing_audio: bool,
}

/// A browser tab: its page and what it is doing.
#[derive(Debug, Clone)]
pub struct BrowserTabData {
    pub id: String,
    pub title: String,
    pub url: String,
    pub favicon: Option<String>,
    pub loading_state: TabLoadingState,
    pub is_pinned: bool,
    pub is_muted: bool,
    pub is_playing_audio: bool,
}

impl View for BrowserTabData {
    type V = BrowserTabDataView;

    open spec fn view(&self) -> BrowserTabDataView {
        BrowserTabDataView {
            id: self.id@,
            title: self.title@,
            url: self.url@,
            favicon: opt_view(&self.favicon),
            loading_state: self.loading_state,
            is_pinned: self.is_pinned,
            is_muted: self.is_muted,
            is_playing_audio: self.is_playing_audio,
        }
    }
}

/// The status icon of a tab: a spinner while loading, else a speaker
/// while it plays audio (crossed out when muted), else none.
pub open spec fn status_icon_of(t: BrowserTabDataView) -> Option<Seq<char>> {
    if t.loading_state == TabLoadingState::Loading {
        Some("⟳"@)
    } else if t.is_playing_audio {
        if t.is_muted { Some("🔇"@) } else { Some("🔊"@) }
    } else {
        None
    }
}

impl BrowserTabData {
    /// An idle, unpinned, silent tab without favicon.
    pub fn new(id: &str, title: &str, url: &str) -> (r: Self)
        ensures
            r@ == (BrowserTabDataView {
                id: id@,
                title: title@,
                url: url@,
                favicon: None,
                loading_state: TabLoadingState::Idle,
                is_pinned: false,
                is_muted: false,
                is_playing_audio: false,
            }),
    {
        BrowserTabData {
            id: owned(id),
            title: owned(title),
            url: owned(url),
            favicon: None,
            loading_state: TabLoadingState::Idle,
            is_pinned: false,
            is_muted: false,
            is_playing_audio: false,
        }
    }

    /// Set the favicon.
    pub fn favicon(self, favicon: &str) -> (r: Self)
        ensures
            r@ == (BrowserTabDataView { favicon: Some(favicon@), ..self@ }),
    {
        BrowserTabData { favicon: Some(owned(favicon)), ..self }
    }

    /// The title shortened to at most `max_chars` characters, with an
    /// ellipsis when cut.
    pub fn display_title(&self, max_chars: usize) -> (r: String)
        requires
            max_chars >= 1 || self@.title.len() == 0,
        ensures
            r@ == truncated(self@.title, max_chars as nat),
    {
        truncate_with_ellipsis(self.title.as_str(), max_chars)
    }

    /// The status icon (see `status_icon_of`).
    pub fn status_icon(&self) -> (r: Option<&'static str>)
        ensures
            match r {
                Some(s) => status_icon_of(self@) == Some(s@),
                None => status_icon_of(self@) is None,
            },
    {
        if self.loading_state == TabLoadingState::Loading {
            Some("⟳")
        } else if self.is_playing_audio {
            if self.is_muted { Some("🔇") } else { Some("🔊") }
        } else {
            None
        }
    }
}

/// The views of a sequence of tabs.
pub open spec fn browser_tabs_view(s: Seq<BrowserTabData>) -> Seq<BrowserTabDataView> {
    s.map_values(|t: BrowserTabData| t@)
}

/// What the owner of a tab bar is asked to do: tell the select or close
/// handler of a tab id, or the new-tab handler.
#[derive(Debug)]
pub enum BrowserTabBarAction {
    Nothing,
    Select(String),
    Close(String),
    NewTab,
}

/// Abstract contents of a `BrowserTabBar`.
pub struct BrowserTabBarView {
    pub base: BaseView,
    pub tabs: Seq<BrowserTabDataView>,
    pub selected_id: Option<Seq<char>>,
    pub hovered_tab: Option<Seq<char>>,
    pub show_new_tab_button: bool,
}

/// A bar of browser tabs with a new-tab button.
#[derive(Debug)]
pub struct BrowserTabBar {
    base: WidgetBase,
    tabs: Vec<BrowserTabData>,
    selected_id: Option<String>,
    hovered_tab: Option<String>,
    show_new_tab_button: bool,
}

impl View for BrowserTabBar {
    type V = BrowserTabBarView;

    closed spec fn view(&self) -> BrowserTabBarView {
        BrowserTabBarView {
            base: self.base@,
            tabs: browser_tabs_view(self.tabs@),
            selected_id: opt_view(&self.selected_id),
            hovered_tab: opt_view(&self.hovered_tab),
            show_new_tab_button: self.show_new_tab_button,
        }
    }
}

/// The id of the tab at `index`, if the bar has that many tabs.
pub open spec fn tab_id_at(s: Seq<BrowserTabDataView>, index: usize) -> Option<Seq<char>> {
    if index < s.len() { Some(s[index as int].id) } else { None }
}

impl BrowserTabBar {
    /// An empty bar with the new-tab button.
    pub fn new(ids: &mut WidgetIds) -> (r: Self)
        ensures
            r@.base.id == old(ids)@,
            final(ids)@ == succ_id(old(ids)@),
            r@.base.classes == seq!["browser-tab-bar"@],
            r@.base.element_id is None,
            r@.base.state == cleared_state(),
            r@.tabs.len() == 0,
            r@.selected_id is None,
            r@.hovered_tab is None,
            r@.show_new_tab_button,
    {
        BrowserTabBar {
            base: WidgetBase::new(ids).with_class("browser-tab-bar"),
            tabs: Vec::new(),
            selected_id: None,
            hovered_tab: None,
            show_new_tab_button: true,
        }
    }

    /// Add a tab.
    pub fn tab(self, tab: BrowserTabData) -> (r: Self)
        ensures
            r@ == (BrowserTabBarView { tabs: self@.tabs.push(tab@), ..self@ }),
    {
        let mut b = self;
        b.tabs.push(tab);
        assert(browser_tabs_view(b.tabs@) =~= self@.tabs.push(tab@));
        b
    }

    /// Replace the tabs.
    pub fn tabs(self, tabs: Vec<BrowserTabData>) -> (r: Self)
        ensures
            r@ == (BrowserTabBarView { tabs: browser_tabs_view(tabs@), ..self@ }),
    {
        BrowserTabBar { tabs, ..self }
    }

    /// Set the selected tab id.
    pub fn selected(self, id: &str) -> (r: Self)
        ensures
            r@ == (BrowserTabBarView { selected_id: Some(id@), ..self@ }),
    {
        BrowserTabBar { selected_id: Some(owned(id)), ..self }
    }

    /// The tabs.
    pub fn get_tabs(&self) -> (r: &Vec<BrowserTabData>)
        ensures
            browser_tabs_view(r@) == self@.tabs,
    {
        &self.tabs
    }

    /// The selected tab id, if any.
    pub fn selected_id(&self) -> (r: Option<&str>)
        ensures
            match r {
                Some(s) => self@.selected_id == Some(s@),
                None => self@.selected_id is None,
            },
    {
        match &self.selected_id {
            Some(s) => Some(s.as_str()),
            None => None,
        }
    }

    /// The id of the tab under the pointer, if any.
    pub fn hovered_tab(&self) -> (r: Option<&str>)
        ensures
            match r {
                Some(s) => self@.hovered_tab == Some(s@),
                None => self@.hovered_tab is None,
            },
    {
        match &self.hovered_tab {
            Some(s) => Some(s.as_str()),
            None => None,
        }
    }

    /// Handles a pointer event; `tab_index` is the tab slot under the
    /// pointer and `on_new_tab_button` whether the pointer is on the new-tab
    /// button. Inside the bar a move hovers the tab in that slot (or none);
    /// leaving it drops the hover; a left press hits the new-tab button
    /// (when shown) or selects the tab in that slot; a middle press asks to
    /// close the tab in that slot.
    pub fn handle_pointer(&mut self, ev: PointerEvent, tab_index: usize, on_new_tab_button: bool, ctx: &mut EventContext) -> (r: (EventResult, BrowserTabBarAction))
        ensures
            final(ctx).focus == old(ctx).focus,
            ({
                let v = old(self)@;
                let slot = tab_id_at(v.tabs, tab_index);
                match ev.kind {
                    MouseEventKind::Move => if ev.in_bounds {
                        &&& final(self)@ == (BrowserTabBarView { hovered_tab: slot, ..v })
                        &&& r.0 == EventResult::Handled && r.1 is Nothing
                        &&& final(ctx).should_redraw
                    } else {
                        &&& final(self)@ == (BrowserTabBarView { hovered_tab: None, ..v })
                        &&& r.0 == EventResult::Ignored && r.1 is Nothing
                        &&& final(ctx).should_redraw == (old(ctx).should_redraw || v.hovered_tab is Some)
                    },
                    MouseEventKind::Down if ev.in_bounds && ev.button == Some(MouseButton::Left)
                        && on_new_tab_button && v.show_new_tab_button => {
                        &&& final(self)@ == v
                        &&& r.0 == EventResult::Handled && r.1 is NewTab
                        &&& final(ctx).should_redraw == old(ctx).should_redraw
                    },
                    MouseEventKind::Down if ev.in_bounds && ev.button == Some(MouseButton::Left) && slot is Some => {
                        &&& final(self)@ == (BrowserTabBarView { selected_id: slot, ..v })
                        &&& r.0 == EventResult::Handled
                        &&& r.1 matches BrowserTabBarAction::Select(s) && Some(s@) == slot
                        &&& final(ctx).should_redraw
                    },
                    MouseEventKind::Down if ev.in_bounds && ev.button == Some(MouseButton::Middle) && slot is Some => {
                        &&& final(self)@ == v
                        &&& r.0 == EventResult::Handled
                        &&& r.1 matches BrowserTabBarAction::Close(s) && Some(s@) == slot
                        &&& final(ctx).should_redraw == old(ctx).should_redraw
                    },
                    _ => {
                        &&& final(self)@ == v
                        &&& r.0 == EventResult::Ignored && r.1 is Nothing
                        &&& final(ctx).should_redraw == old(ctx).should_redraw
                    },
                }
            }),
    {
        let slot: Option<String> = if tab_index < self.tabs.len() { Some(self.tabs[tab_index].id.clone()) } else { None };
        match ev.kind {
            MouseEventKind::Move => {
                if ev.in_bounds {
                    self.hovered_tab = slot;
                    ctx.request_redraw();
                    (EventResult::Handled, BrowserTabBarAction::Nothing)
                } else {
                    if self.hovered_tab.is_some() {
                        self.hovered_tab = None;
                        ctx.request_redraw();
                    }
                    (EventResult::Ignored, BrowserTabBarAction::Nothing)
                }
            },
            MouseEventKind::Down => {
                if ev.in_bounds {
                    match ev.button {
                        Some(MouseButton::Left) => {
                            if on_new_tab_button && self.show_new_tab_button {
                                return (EventResult::Handled, BrowserTabBarAction::NewTab);
                            }
                            match slot {
                                Some(id) => {
                                    self.selected_id = Some(id.clone());
                                    ctx.request_redraw();
                                    (EventResult::Handled, BrowserTabBarAction::Select(id))
                                },
                                None => (EventResult::Ignored, BrowserTabBarAction::Nothing),
                            }
                        },
                        Some(MouseButton::Middle) => {
                            match slot {
                                Some(id) => (EventResult::Handled, BrowserTabBarAction::Close(id)),
                                None => (EventResult::Ignored, BrowserTabBarAction::Nothing),
                            }
                        },
                        _ => (EventResult::Ignored, BrowserTabBarAction::Nothing),
                    }
                } else {
                    (EventResult::Ignored, BrowserTabBarAction::Nothing)
                }
            },
            _ => (EventResult::Ignored, BrowserTabBarAction::Nothing),
        }
    }
}

impl Widget for BrowserTabBar {
    fn id(&self) -> (r: WidgetId)
        ensures
            r == self@.base.id,
    {
        self.base.id
    }

    fn widget_type_name(&self) -> (r: &'static str)
        ensures
            r@ == "browser-tab-bar"@,
    {
        "browser-tab-bar"
    }

    fn element_id(&self) -> (r: Option<&str>)
        ensures
            match r {
                Some(s) => self@.base.element_id == Some(s@),
                None => self@.base.element_id is None,
            },
    {
        self.base.element_id_str()
    }

    fn classes(&self) -> (r: &ClassList)
        ensures
            r@ == self@.base.classes,
    {
        &self.base.classes
    }

    fn state(&self) -> (r: WidgetState)
        ensures
            r == self@.base.state,
    {
        self.base.state
    }
}

} // verus!
