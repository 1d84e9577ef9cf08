//! Browser toolbar: navigation buttons, address, and action buttons.
use vstd::prelude::*;

use super::address_bar::{display_url, display_url_of, SecurityState};
use super::{BaseView, EventContext, Widget, WidgetBase, WidgetId, WidgetIds, succ_id};
use crate::css::{ClassList, WidgetState};
use crate::event::{is_left, left_button, EventResult, MouseButton, MouseEventKind};
use crate::text::{dec, decimal_string, owned};
use crate::theme::{ColorAdjust, ColorChoice, ThemeColor};

verus! {

/// Toolbar action buttons.
#[derive(Debug, Clone, Copy, PartialEq, Eq, Structural)]
pub enum ToolbarAction {
    Downloads,
    Extensions,
    Bookmarks,
    Settings,
    Menu,
}

/// The icon of a toolbar action.
pub open spec fn toolbar_action_icon(a: ToolbarAction) -> Seq<char> {
    match a {
        ToolbarAction::Downloads => "⬇️"@,
        ToolbarAction::Extensions => "🧩"@,
        ToolbarAction::Bookmarks => "⭐"@,
        ToolbarAction::Settings => "⚙️"@,
        ToolbarAction::Menu => "☰"@,
    }
}

/// The action buttons in their order on the toolbar.
pub open spec fn toolbar_action_at(i: int) -> Option<ToolbarAction> {
    if i == 0 { Some(ToolbarAction::Downloads) }
    else if i == 1 { Some(ToolbarAction::Extensions) }
    else if i == 2 { Some(ToolbarAction::Bookmarks) }
    else if i == 3 { Some(ToolbarAction::Settings) }
    else if i == 4 { Some(ToolbarAction::Menu) }
    else { None }
}

impl ToolbarAction {
    /// The button icon.
    pub fn icon(&self) -> (r: &'static str)
        ensures
            r@ == toolbar_action_icon(*self),
    {
        match self {
            ToolbarAction::Downloads => "⬇️",
            ToolbarAction::Extensions => "🧩",
            ToolbarAction::Bookmarks => "⭐",
            ToolbarAction::Settings => "⚙️",
            ToolbarAction::Menu => "☰",
        }
    }
}

/// Which part of the toolbar lies under the pointer.
#[derive(Debug, Clone, Copy, PartialEq, Eq, Structural)]
pub enum ToolbarHit {
    /// The action button area, at the given button index (counted from the
    /// first action button; past the last button is possible).
    ActionArea(usize),
    /// The back button.
    Back,
    /// The forward button.
    Forward,
    /// The reload/stop button.
    Reload,
    /// Elsewhere on the toolbar.
    Elsewhere,
    /// Outside the toolbar.
    Outside,
}

/// What a pointer event on the toolbar asks of the application.
#[derive(Debug, Clone, Copy, PartialEq, Eq, Structural)]
pub enum ToolbarCommand {
    Nothing,
    Action(ToolbarAction),
    Back,
    Forward,
    Reload,
    Stop,
}

/// Abstract contents of a `BrowserToolbar`.
pub struct BrowserToolbarView {
    pub base: BaseView,
    pub can_go_back: bool,
    pub can_go_forward: bool,
    pub is_loading: bool,
    pub url: Seq<char>,
    pub security_state: SecurityState,
    pub has_active_downloads: bool,
    pub download_count: u32,
    pub hovered_action: Option<ToolbarAction>,
}

/// Browser toolbar widget.
pub struct BrowserToolbar {
    base: WidgetBase,
    can_go_back: bool,
    can_go_forward: bool,
    is_loading: bool,
    url: String,
    security_state: SecurityState,
    has_active_downloads: bool,
    download_count: u32,
    hovered_action: Option<ToolbarAction>,
}

impl View for BrowserToolbar {
    type V = BrowserToolbarView;

    closed spec fn view(&self) -> BrowserToolbarView {
        BrowserToolbarView {
            base: self.base@,
            can_go_back: self.can_go_back,
            can_go_forward: self.can_go_forward,
            is_loading: self.is_loading,
            url: self.url@,
            security_state: self.security_state,
            has_active_downloads: self.has_active_downloads,
            download_count: self.download_count,
            hovered_action: self.hovered_action,
        }
    }
}

/// The toolbar's response to a pointer event: the new hovered action, the
/// event result, the command, and whether to redraw.
pub open spec fn toolbar_step(v: BrowserToolbarView, kind: MouseEventKind, button: Option<MouseButton>, hit: ToolbarHit)
    -> (Option<ToolbarAction>, EventResult, ToolbarCommand, bool)
{
    match kind {
        MouseEventKind::Move => match hit {
            ToolbarHit::ActionArea(i) => (toolbar_action_at(i as int), EventResult::Handled, ToolbarCommand::Nothing, true),
            _ => if v.hovered_action is Some {
                (None, EventResult::Ignored, ToolbarCommand::Nothing, true)
            } else {
                (None, EventResult::Ignored, ToolbarCommand::Nothing, false)
            },
        },
        MouseEventKind::Down => if !is_left(button) {
            (v.hovered_action, EventResult::Ignored, ToolbarCommand::Nothing, false)
        } else if v.hovered_action is Some {
            (v.hovered_action, EventResult::Handled, ToolbarCommand::Action(v.hovered_action->0), false)
        } else {
            match hit {
                ToolbarHit::Back => if v.can_go_back {
                    (v.hovered_action, EventResult::Handled, ToolbarCommand::Back, false)
                } else {
                    (v.hovered_action, EventResult::Ignored, ToolbarCommand::Nothing, false)
                },
                ToolbarHit::Forward => if v.can_go_forward {
                    (v.hovered_action, EventResult::Handled, ToolbarCommand::Forward, false)
                } else {
                    (v.hovered_action, EventResult::Ignored, ToolbarCommand::Nothing, false)
                },
                ToolbarHit::Reload => (
                    v.hovered_action,
                    EventResult::Handled,
                    if v.is_loading { ToolbarCommand::Stop } else { ToolbarCommand::Reload },
                    false,
                ),
                _ => (v.hovered_action, EventResult::Ignored, ToolbarCommand::Nothing, false),
            }
        },
        _ => (v.hovered_action, EventResult::Ignored, ToolbarCommand::Nothing, false),
    }
}

impl BrowserToolbar {
    /// A toolbar with nothing to go back or forward to, not loading, no URL.
    pub fn new(ids: &mut WidgetIds) -> (r: Self)
        ensures
            r@.base.id == old(ids)@,
            final(ids)@ == succ_id(old(ids)@),
            r@.base.classes == seq!["browser-toolbar"@],
            r@.base.element_id is None,
            !r@.can_go_back,
            !r@.can_go_forward,
            !r@.is_loading,
            r@.url.len() == 0,
            r@.security_state == SecurityState::Unknown,
            !r@.has_active_downloads,
            r@.download_count == 0,
            r@.hovered_action is None,
    {
        BrowserToolbar {
            base: WidgetBase::new(ids).with_class("browser-toolbar"),
            can_go_back: false,
            can_go_forward: false,
            is_loading: false,
            url: String::new(),
            security_state: SecurityState::Unknown,
            has_active_downloads: false,
            download_count: 0,
            hovered_action: None,
        }
    }

    /// Set whether there is a page to go back to.
    pub fn can_go_back(self, can: bool) -> (r: Self)
        ensures
            r@ == (BrowserToolbarView { can_go_back: can, ..self@ }),
    {
        BrowserToolbar { can_go_back: can, ..self }
    }

    /// Set whether there is a page to go forward to.
    pub fn can_go_forward(self, can: bool) -> (r: Self)
        ensures
            r@ == (BrowserToolbarView { can_go_forward: can, ..self@ }),
    {
        BrowserToolbar { can_go_forward: can, ..self }
    }

    /// Set whether the page is loading.
    pub fn is_loading(self, loading: bool) -> (r: Self)
        ensures
            r@ == (BrowserToolbarView { is_loading: loading, ..self@ }),
    {
        BrowserToolbar { is_loading: loading, ..self }
    }

    /// Set the URL.
    pub fn url(self, url: &str) -> (r: Self)
        ensures
            r@ == (BrowserToolbarView { url: url@, ..self@ }),
    {
        BrowserToolbar { url: owned(url), ..self }
    }

    /// Set the security state.
    pub fn security_state(self, state: SecurityState) -> (r: Self)
        ensures
            r@ == (BrowserToolbarView { security_state: state, ..self@ }),
    {
        BrowserToolbar { security_state: state, ..self }
    }

    /// Set whether downloads are running.
    pub fn has_active_downloads(self, has: bool) -> (r: Self)
        ensures
            r@ == (BrowserToolbarView { has_active_downloads: has, ..self@ }),
    {
        BrowserToolbar { has_active_downloads: has, ..self }
    }

    /// The glyph of the reload button: a cross (stop) while loading, else
    /// a circular arrow.
    pub fn reload_icon(&self) -> (r: &'static str)
        ensures
            r@ == (if self@.is_loading { "✕"@ } else { "↻"@ }),
    {
        if self.is_loading { "✕" } else { "↻" }
    }

    /// The color of a navigation arrow: muted, and faded to 30% when the
    /// arrow cannot be used.
    pub fn nav_color(enabled: bool) -> (r: ColorChoice)
        ensures
            r == (ColorChoice {
                color: ThemeColor::MutedForeground,
                adjust: if enabled { ColorAdjust::Plain } else { ColorAdjust::AlphaPercent(30) },
            }),
    {
        ColorChoice {
            color: ThemeColor::MutedForeground,
            adjust: if enabled { ColorAdjust::Plain } else { ColorAdjust::AlphaPercent(30) },
        }
    }

    /// The number written on the downloads badge: shown while downloads are
    /// active and their count is 1 to 9.
    pub fn download_badge_text(&self) -> (r: Option<String>)
        ensures
            match r {
                Some(t) => self@.has_active_downloads && 0 < self@.download_count < 10
                    && t@ == dec(self@.download_count as nat),
                None => !(self@.has_active_downloads && 0 < self@.download_count < 10),
            },
    {
        if self.has_active_downloads && self.download_count > 0 && self.download_count < 10 {
            Some(decimal_string(self.download_count as u64))
        } else {
            None
        }
    }

    /// Set the number of downloads shown on the badge.
    pub fn download_count(self, count: u32) -> (r: Self)
        ensures
            r@ == (BrowserToolbarView { download_count: count, ..self@ }),
    {
        BrowserToolbar { download_count: count, ..self }
    }

    /// The URL as displayed (see `display_url_of`).
    pub fn format_url(&self) -> (r: String)
        ensures
            r@ == display_url_of(self@.url),
    {
        display_url(self.url.as_str())
    }

    /// The hovered action button, if any.
    pub fn hovered_action(&self) -> (r: Option<ToolbarAction>)
        ensures
            r == self@.hovered_action,
    {
        self.hovered_action
    }

    /// Handles a pointer event; `hit` tells which part of the toolbar lies
    /// under the pointer. Moving over the action area hovers the button
    /// there; a left press runs the hovered action, else the back, forward
    /// or reload/stop button under the pointer when it is enabled.
    pub fn handle_pointer(&mut self, kind: MouseEventKind, button: Option<MouseButton>, hit: ToolbarHit, ctx: &mut EventContext)
        -> (r: (EventResult, ToolbarCommand))
        ensures
            ({
                let (h, res, cmd, redraw) = toolbar_step(old(self)@, kind, button, hit);
                &&& final(self)@ == (BrowserToolbarView { hovered_action: h, ..old(self)@ })
                &&& r == (res, cmd)
                &&& final(ctx).focus == old(ctx).focus
                &&& final(ctx).should_redraw == (old(ctx).should_redraw || redraw)
            }),
    {
        match kind {
            MouseEventKind::Move => {
                match hit {
                    ToolbarHit::ActionArea(i) => {
                        self.hovered_action = if i == 0 {
                            Some(ToolbarAction::Downloads)
                        } else if i == 1 {
                            Some(ToolbarAction::Extensions)
                        } else if i == 2 {
                            Some(ToolbarAction::Bookmarks)
                        } else if i == 3 {
                            Some(ToolbarAction::Settings)
                        } else if i == 4 {
                            Some(ToolbarAction::Menu)
                        } else {
                            None
                        };
                        ctx.request_redraw();
                        (EventResult::Handled, ToolbarCommand::Nothing)
                    },
                    _ => {
                        if self.hovered_action.is_some() {
                            self.hovered_action = None;
                            ctx.request_redraw();
                        }
                        (EventResult::Ignored, ToolbarCommand::Nothing)
                    },
                }
            },
            MouseEventKind::Down => {
                if !left_button(button) {
                    return (EventResult::Ignored, ToolbarCommand::Nothing);
                }
                match self.hovered_action {
                    Some(a) => (EventResult::Handled, ToolbarCommand::Action(a)),
                    None => match hit {
                        ToolbarHit::Back => if self.can_go_back {
                            (EventResult::Handled, ToolbarCommand::Back)
                        } else {
                            (EventResult::Ignored, ToolbarCommand::Nothing)
                        },
                        ToolbarHit::Forward => if self.can_go_forward {
                            (EventResult::Handled, ToolbarCommand::Forward)
                        } else {
                            (EventResult::Ignored, ToolbarCommand::Nothing)
                        },
                        ToolbarHit::Reload => if self.is_loading {
                            (EventResult::Handled, ToolbarCommand::Stop)
                        } else {
                            (EventResult::Handled, ToolbarCommand::Reload)
                        },
                        _ => (EventResult::Ignored, ToolbarCommand::Nothing),
                    },
                }
            },
            _ => (EventResult::Ignored, ToolbarCommand::Nothing),
        }
    }
}

impl Widget for BrowserToolbar {
    fn id(&self) -> (r: WidgetId)
        ensures
            r == self@.base.id,
    {
        self.base.id
    }

    fn widget_type_name(&self) -> (r: &'static str)
        ensures
            r@ == "browser-toolbar"@,
    {
        "browser-toolbar"
    }

    fn element_id(&self) -> (r: Option<&str>)
        ensures
            match r {
                Some(s) => self@.base.element_id == Some(s@),
                None => self@.base.element_id is None,
            },
    {
        self.base.element_id_str()
    }

    fn classes(&self) -> (r: &ClassList)
        ensures
            r@ == self@.base.classes,
    {
        &self.base.classes
    }

    fn state(&self) -> (r: WidgetState)
        ensures
            r == self@.base.state,
    {
        self.base.state
    }
}

} // verus!
