//! Start button widget: opens and closes the start menu.
use vstd::prelude::*;

use super::{BaseView, Widget, WidgetBase, WidgetId, WidgetIds, succ_id};
use crate::css::{added, cleared_state, ClassList, WidgetState};
use crate::event::{is_left, left_button, EventResult, MouseEventKind, PointerEvent};
use crate::text::{opt_view, owned};

verus! {

/// What the start button shows.
#[derive(Debug, Clone, Copy, PartialEq, Eq, Structural)]
pub enum StartButtonStyle {
    WindowsLogo,
    HamburgerMenu,
    AppGrid,
    CustomIcon,
    TextLabel,
    CircleLogo,
}

impl Default for StartButtonStyle {
    fn default() -> (r: Self)
        ensures
            r == StartButtonStyle::WindowsLogo,
    {
        StartButtonStyle::WindowsLogo
    }
}

/// The interaction state of the start button.
#[derive(Debug, Clone, Copy, PartialEq, Eq, Structural)]
pub enum StartButtonState {
    Normal,
    Hovered,
    Pressed,
    Active,
}

impl Default for StartButtonState {
    fn default() -> (r: Self)
        ensures
            r == StartButtonState::Normal,
    {
        StartButtonState::Normal
    }
}

/// Abstract contents of a `StartButton`.
pub struct StartButtonView {
    pub base: BaseView,
    pub style: StartButtonStyle,
    pub state: StartButtonState,
    pub is_menu_open: bool,
    pub icon_path: Option<Seq<char>>,
    pub label: Seq<char>,
    pub animate_on_hover: bool,
    pub glow_enabled: bool,
}

/// The start button.
#[derive(Debug)]
pub struct StartButton {
    base: WidgetBase,
    style: StartButtonStyle,
    state: StartButtonState,
    is_menu_open: bool,
    icon_path: Option<String>,
    label: String,
    animate_on_hover: bool,
    glow_enabled: bool,
}

impl View for StartButton {
    type V = StartButtonView;

    closed spec fn view(&self) -> StartButtonView {
        StartButtonView {
            base: self.base@,
            style: self.style,
            state: self.state,
            is_menu_open: self.is_menu_open,
            icon_path: opt_view(&self.icon_path),
            label: self.label@,
            animate_on_hover: self.animate_on_hover,
            glow_enabled: self.glow_enabled,
        }
    }
}

/// The button with its menu set open or closed: active while open, else
/// normal.
pub open spec fn with_menu(v: StartButtonView, open: bool) -> StartButtonView {
    StartButtonView {
        is_menu_open: open,
        state: if open { StartButtonState::Active } else { StartButtonState::Normal },
        ..v
    }
}

/// One pointer event: the new button, whether the event was handled, and,
/// after a click, the new menu state.
pub open spec fn start_button_step(v: StartButtonView, ev: PointerEvent) -> (StartButtonView, EventResult, Option<bool>) {
    match ev.kind {
        MouseEventKind::Move => if ev.in_bounds && v.state != StartButtonState::Active {
            (StartButtonView { state: StartButtonState::Hovered, ..v }, EventResult::Handled, None)
        } else if !ev.in_bounds && v.state == StartButtonState::Hovered {
            (StartButtonView { state: StartButtonState::Normal, ..v }, EventResult::Handled, None)
        } else {
            (v, EventResult::Ignored, None)
        },
        MouseEventKind::Down => if ev.in_bounds && is_left(ev.button) {
            (StartButtonView { state: StartButtonState::Pressed, ..v }, EventResult::Handled, None)
        } else {
            (v, EventResult::Ignored, None)
        },
        MouseEventKind::Up => if !is_left(ev.button) {
            (v, EventResult::Ignored, None)
        } else if ev.in_bounds && v.state == StartButtonState::Pressed {
            (with_menu(v, !v.is_menu_open), EventResult::Handled, Some(!v.is_menu_open))
        } else if !v.is_menu_open {
            (StartButtonView {
                state: if ev.in_bounds { StartButtonState::Hovered } else { StartButtonState::Normal },
                ..v
            }, EventResult::Ignored, None)
        } else {
            (v, EventResult::Ignored, None)
        },
        _ => (v, EventResult::Ignored, None),
    }
}

impl StartButton {
    /// A normal button in the logo style, labelled `Start`, with its menu
    /// closed, animated on hover and without glow.
    pub fn new(ids: &mut WidgetIds) -> (r: Self)
        ensures
            r@.base.id == old(ids)@,
            final(ids)@ == succ_id(old(ids)@),
            r@.base.classes == seq!["start-button"@],
            r@.base.element_id is None,
            r@.base.state == cleared_state(),
            r@.style == StartButtonStyle::WindowsLogo,
            r@.state == StartButtonState::Normal,
            !r@.is_menu_open,
            r@.icon_path is None,
            r@.label == "Start"@,
            r@.animate_on_hover,
            !r@.glow_enabled,
    {
        StartButton {
            base: WidgetBase::new(ids).with_class("start-button"),
            style: StartButtonStyle::WindowsLogo,
            state: StartButtonState::Normal,
            is_menu_open: false,
            icon_path: None,
            label: owned("Start"),
            animate_on_hover: true,
            glow_enabled: false,
        }
    }

    /// Set the style.
    pub fn style(self, style: StartButtonStyle) -> (r: Self)
        ensures
            r@ == (StartButtonView { style, ..self@ }),
    {
        StartButton { style, ..self }
    }

    /// Show a custom icon (this switches to the custom-icon style).
    pub fn icon(self, path: &str) -> (r: Self)
        ensures
            r@ == (StartButtonView { icon_path: Some(path@), style: StartButtonStyle::CustomIcon, ..self@ }),
    {
        StartButton { icon_path: Some(owned(path)), style: StartButtonStyle::CustomIcon, ..self }
    }

    /// Set the label text.
    pub fn label(self, label: &str) -> (r: Self)
        ensures
            r@ == (StartButtonView { label: label@, ..self@ }),
    {
        StartButton { label: owned(label), ..self }
    }

    /// Animate on hover or not.
    pub fn animate_hover(self, enabled: bool) -> (r: Self)
        ensures
            r@ == (StartButtonView { animate_on_hover: enabled, ..self@ }),
    {
        StartButton { animate_on_hover: enabled, ..self }
    }

    /// Glow or not.
    pub fn glow(self, enabled: bool) -> (r: Self)
        ensures
            r@ == (StartButtonView { glow_enabled: enabled, ..self@ }),
    {
        StartButton { glow_enabled: enabled, ..self }
    }

    /// Open the menu when closed, close it when open; returns the new
    /// menu state (which the menu-toggle handler is told).
    pub fn toggle_menu(&mut self) -> (r: bool)
        ensures
            final(self)@ == with_menu(old(self)@, !old(self)@.is_menu_open),
            r == !old(self)@.is_menu_open,
    {
        self.is_menu_open = !self.is_menu_open;
        self.state = if self.is_menu_open { StartButtonState::Active } else { StartButtonState::Normal };
        self.is_menu_open
    }

    /// Set the menu state.
    pub fn set_menu_open(&mut self, open: bool)
        ensures
            final(self)@ == with_menu(old(self)@, open),
    {
        self.is_menu_open = open;
        self.state = if open { StartButtonState::Active } else { StartButtonState::Normal };
    }

    /// Whether the menu is open.
    pub fn is_menu_open(&self) -> (r: bool)
        ensures
            r == self@.is_menu_open,
    {
        self.is_menu_open
    }

    /// The interaction state.
    pub fn button_state(&self) -> (r: StartButtonState)
        ensures
            r == self@.state,
    {
        self.state
    }

    /// Add a CSS class.
    pub fn class(self, class: &str) -> (r: Self)
        ensures
            r@ == (StartButtonView { base: BaseView { classes: added(self@.base.classes, class@), ..self@.base }, ..self@ }),
    {
        let mut b = self;
        b.base.classes.add(class);
        b
    }

    /// Set the element ID.
    pub fn id(self, id: &str) -> (r: Self)
        ensures
            r@ == (StartButtonView { base: BaseView { element_id: Some(id@), ..self@.base }, ..self@ }),
    {
        let mut b = self;
        b.base.element_id = Some(owned(id));
        b
    }

    /// Handles a pointer event (see `start_button_step`); after a click it
    /// returns the new menu state, for the menu-toggle handler and then the
    /// click handler.
    pub fn handle_pointer(&mut self, ev: PointerEvent) -> (r: (EventResult, Option<bool>))
        ensures
            ({
                let step = start_button_step(old(self)@, ev);
                final(self)@ == step.0 && r == (step.1, step.2)
            }),
    {
        let left = left_button(ev.button);
        match ev.kind {
            MouseEventKind::Move => {
                if ev.in_bounds && self.state != StartButtonState::Active {
                    self.state = StartButtonState::Hovered;
                    (EventResult::Handled, None)
                } else if !ev.in_bounds && self.state == StartButtonState::Hovered {
                    self.state = StartButtonState::Normal;
                    (EventResult::Handled, None)
                } else {
                    (EventResult::Ignored, None)
                }
            },
            MouseEventKind::Down => {
                if ev.in_bounds && left {
                    self.state = StartButtonState::Pressed;
                    (EventResult::Handled, None)
                } else {
                    (EventResult::Ignored, None)
                }
            },
            MouseEventKind::Up => {
                if !left {
                    return (EventResult::Ignored, None);
                }
                if ev.in_bounds && self.state == StartButtonState::Pressed {
                    let open = self.toggle_menu();
                    return (EventResult::Handled, Some(open));
                }
                if !self.is_menu_open {
                    self.state = if ev.in_bounds { StartButtonState::Hovered } else { StartButtonState::Normal };
                }
                (EventResult::Ignored, None)
            },
            _ => (EventResult::Ignored, None),
        }
    }
}

/// Toggling the menu twice restores it, and whenever the menu state is
/// set the button is active exactly while the menu is open.
pub proof fn lemma_menu_toggle_twice(v: StartButtonView, open: bool)
    ensures
        with_menu(with_menu(v, !v.is_menu_open), !with_menu(v, !v.is_menu_open).is_menu_open).is_menu_open == v.is_menu_open,
        with_menu(v, open).is_menu_open == open,
        (with_menu(v, open).state == StartButtonState::Active) == open,
{
}

/// A press and release inside the button opens a closed menu.
pub proof fn lemma_click_opens_menu(v: StartButtonView, down: PointerEvent, up: PointerEvent)
    requires
        !v.is_menu_open,
        down.kind == MouseEventKind::Down,
        down.in_bounds,
        is_left(down.button),
        up.kind == MouseEventKind::Up,
        up.in_bounds,
        is_left(up.button),
    ensures
        start_button_step(start_button_step(v, down).0, up).0.is_menu_open,
        start_button_step(start_button_step(v, down).0, up).2 == Some(true),
{
}

impl Widget for StartButton {
    fn id(&self) -> (r: WidgetId)
        ensures
            r == self@.base.id,
    {
        self.base.id
    }

    fn widget_type_name(&self) -> (r: &'static str)
        ensures
            r@ == "start-button"@,
    {
        "start-button"
    }

    fn element_id(&self) -> (r: Option<&str>)
        ensures
            match r {
                Some(s) => self@.base.element_id == Some(s@),
                None => self@.base.element_id is None,
            },
    {
        self.base.element_id_str()
    }

    fn classes(&self) -> (r: &ClassList)
        ensures
            r@ == self@.base.classes,
    {
        &self.base.classes
    }

    fn state(&self) -> (r: WidgetState)
        ensures
            r == self@.base.state,
    {
        self.base.state
    }
}

} // verus!
