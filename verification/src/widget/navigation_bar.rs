//! Browser navigation buttons: back, forward, reload/stop, home.
use vstd::prelude::*;

use super::{BaseView, EventContext, Widget, WidgetBase, WidgetId, WidgetIds, succ_id};
use crate::css::{ClassList, WidgetState};
use crate::event::{is_left, left_button, EventResult, MouseButton, MouseEventKind};

verus! {

/// Navigation buttons.
#[derive(Debug, Clone, Copy, PartialEq, Eq, Structural)]
pub enum NavButton {
    Back,
    Forward,
    Reload,
    Stop,
    Home,
}

/// The icon of a navigation button.
pub open spec fn nav_icon(b: NavButton) -> Seq<char> {
    match b {
        NavButton::Back => "←"@,
        NavButton::Forward => "→"@,
        NavButton::Reload => "↻"@,
        NavButton::Stop => "✕"@,
        NavButton::Home => "🏠"@,
    }
}

impl NavButton {
    /// The button icon.
    pub fn icon(&self) -> (r: &'static str)
        ensures
            r@ == nav_icon(*self),
    {
        match self {
            NavButton::Back => "←",
            NavButton::Forward => "→",
            NavButton::Reload => "↻",
            NavButton::Stop => "✕",
            NavButton::Home => "🏠",
        }
    }
}

/// Abstract contents of a `NavigationBar`.
pub struct NavigationBarView {
    pub base: BaseView,
    pub can_go_back: bool,
    pub can_go_forward: bool,
    pub is_loading: bool,
    pub show_home_button: bool,
    pub hovered_button: Option<NavButton>,
}

/// Browser navigation bar widget.
pub struct NavigationBar {
    base: WidgetBase,
    can_go_back: bool,
    can_go_forward: bool,
    is_loading: bool,
    show_home_button: bool,
    hovered_button: Option<NavButton>,
}

impl View for NavigationBar {
    type V = NavigationBarView;

    closed spec fn view(&self) -> NavigationBarView {
        NavigationBarView {
            base: self.base@,
            can_go_back: self.can_go_back,
            can_go_forward: self.can_go_forward,
            is_loading: self.is_loading,
            show_home_button: self.show_home_button,
            hovered_button: self.hovered_button,
        }
    }
}

/// The button at slot `i` from the left: back, forward, stop or reload
/// (by loading state), home.
pub open spec fn nav_button_at(loading: bool, i: int) -> Option<NavButton> {
    if i == 0 { Some(NavButton::Back) }
    else if i == 1 { Some(NavButton::Forward) }
    else if i == 2 { Some(if loading { NavButton::Stop } else { NavButton::Reload }) }
    else if i == 3 { Some(NavButton::Home) }
    else { None }
}

/// Whether pressing a button does something: back and forward only when
/// there is somewhere to go.
pub open spec fn nav_enabled(v: NavigationBarView, b: NavButton) -> bool {
    match b {
        NavButton::Back => v.can_go_back,
        NavButton::Forward => v.can_go_forward,
        _ => true,
    }
}

impl NavigationBar {
    /// A navigation bar with nowhere to go, not loading, showing home.
    pub fn new(ids: &mut WidgetIds) -> (r: Self)
        ensures
            r@.base.id == old(ids)@,
            final(ids)@ == succ_id(old(ids)@),
            r@.base.classes == seq!["navigation-bar"@],
            r@.base.element_id is None,
            !r@.can_go_back,
            !r@.can_go_forward,
            !r@.is_loading,
            r@.show_home_button,
            r@.hovered_button is None,
    {
        NavigationBar {
            base: WidgetBase::new(ids).with_class("navigation-bar"),
            can_go_back: false,
            can_go_forward: false,
            is_loading: false,
            show_home_button: true,
            hovered_button: None,
        }
    }

    /// Set whether there is a page to go back to.
    pub fn can_go_back(self, can: bool) -> (r: Self)
        ensures
            r@ == (NavigationBarView { can_go_back: can, ..self@ }),
    {
        NavigationBar { can_go_back: can, ..self }
    }

    /// Set whether there is a page to go forward to.
    pub fn can_go_forward(self, can: bool) -> (r: Self)
        ensures
            r@ == (NavigationBarView { can_go_forward: can, ..self@ }),
    {
        NavigationBar { can_go_forward: can, ..self }
    }

    /// Set whether the page is loading.
    pub fn is_loading(self, loading: bool) -> (r: Self)
        ensures
            r@ == (NavigationBarView { is_loading: loading, ..self@ }),
    {
        NavigationBar { is_loading: loading, ..self }
    }

    /// Set whether the home button shows.
    pub fn show_home_button(self, show: bool) -> (r: Self)
        ensures
            r@ == (NavigationBarView { show_home_button: show, ..self@ }),
    {
        NavigationBar { show_home_button: show, ..self }
    }

    /// The bar's width in pixels: three buttons, plus the home button when shown.
    pub fn get_width(&self) -> (r: u32)
        ensures
            r == if self@.show_home_button { 144u32 } else { 108u32 },
    {
        let mut width: u32 = 108;
        if self.show_home_button {
            width = width + 36;
        }
        width
    }

    /// The hovered button, if any.
    pub fn hovered_button(&self) -> (r: Option<NavButton>)
        ensures
            r == self@.hovered_button,
    {
        self.hovered_button
    }

    /// Handles a pointer event; `slot` is the button slot under the pointer
    /// when it lies in the bar (`None` outside). Moving hovers the button in
    /// that slot; a left press activates the hovered button when enabled.
    /// Returns the event result and the activated button, if any.
    pub fn handle_pointer(&mut self, kind: MouseEventKind, button: Option<MouseButton>, slot: Option<usize>, ctx: &mut EventContext)
        -> (r: (EventResult, Option<NavButton>))
        ensures
            final(ctx).focus == old(ctx).focus,
            match kind {
                MouseEventKind::Move => match slot {
                    Some(i) => {
                        &&& final(self)@ == (NavigationBarView { hovered_button: nav_button_at(old(self)@.is_loading, i as int), ..old(self)@ })
                        &&& final(ctx).should_redraw
                        &&& r == (EventResult::Handled, None::<NavButton>)
                    },
                    None => {
                        &&& final(self)@ == (NavigationBarView { hovered_button: None, ..old(self)@ })
                        &&& final(ctx).should_redraw == (old(ctx).should_redraw || old(self)@.hovered_button is Some)
                        &&& r == (EventResult::Ignored, None::<NavButton>)
                    },
                },
                MouseEventKind::Down => if is_left(button) && old(self)@.hovered_button is Some {
                    let b = old(self)@.hovered_button->0;
                    &&& final(self)@ == old(self)@
                    &&& final(ctx).should_redraw
                    &&& r == (EventResult::Handled, if nav_enabled(old(self)@, b) { Some(b) } else { None })
                } else {
                    &&& final(self)@ == old(self)@
                    &&& final(ctx).should_redraw == old(ctx).should_redraw
                    &&& r == (EventResult::Ignored, None::<NavButton>)
                },
                _ => {
                    &&& final(self)@ == old(self)@
                    &&& final(ctx).should_redraw == old(ctx).should_redraw
                    &&& r == (EventResult::Ignored, None::<NavButton>)
                },
            },
    {
        match kind {
            MouseEventKind::Move => match slot {
                Some(i) => {
                    self.hovered_button = if i == 0 {
                        Some(NavButton::Back)
                    } else if i == 1 {
                        Some(NavButton::Forward)
                    } else if i == 2 {
                        Some(if self.is_loading { NavButton::Stop } else { NavButton::Reload })
                    } else if i == 3 {
                        Some(NavButton::Home)
                    } else {
                        None
                    };
                    ctx.request_redraw();
                    (EventResult::Handled, None)
                },
                None => {
                    if self.hovered_button.is_some() {
                        self.hovered_button = None;
                        ctx.request_redraw();
                    }
                    (EventResult::Ignored, None)
                },
            },
            MouseEventKind::Down => {
                if left_button(button) {
                    match self.hovered_button {
                        Some(b) => {
                            let enabled = match b {
                                NavButton::Back => self.can_go_back,
                                NavButton::Forward => self.can_go_forward,
                                _ => true,
                            };
                            ctx.request_redraw();
                            (EventResult::Handled, if enabled { Some(b) } else { None })
                        },
                        None => (EventResult::Ignored, None),
                    }
                } else {
                    (EventResult::Ignored, None)
                }
            },
            _ => (EventResult::Ignored, None),
        }
    }
}

impl Widget for NavigationBar {
    fn id(&self) -> (r: WidgetId)
        ensures
            r == self@.base.id,
    {
        self.base.id
    }

    fn widget_type_name(&self) -> (r: &'static str)
        ensures
            r@ == "navigation-bar"@,
    {
        "navigation-bar"
    }

    fn element_id(&self) -> (r: Option<&str>)
        ensures
            match r {
                Some(s) => self@.base.element_id == Some(s@),
                None => self@.base.element_id is None,
            },
    {
        self.base.element_id_str()
    }

    fn classes(&self) -> (r: &ClassList)
        ensures
            r@ == self@.base.classes,
    {
        &self.base.classes
    }

    fn state(&self) -> (r: WidgetState)
        ensures
            r == self@.base.state,
    {
        self.base.state
    }
}

} // verus!
