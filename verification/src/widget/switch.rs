//! Toggle switch widget.
use vstd::prelude::*;

use super::pointer::{hover_step, leave_step, track_hover, track_leave};
use super::{BaseView, EventContext, Widget, WidgetBase, WidgetId, WidgetIds, succ_id};
use crate::css::{added, cleared_state, ClassList, WidgetState};
use crate::event::{is_left, left_button, EventResult, MouseEventKind, PointerEvent};
use crate::text::{opt_view, owned};

verus! {

/// The size of a toggle switch.
#[derive(Debug, Clone, Copy, PartialEq, Eq, Structural)]
pub enum ToggleSwitchSize {
    Small,
    Medium,
    Large,
}

impl Default for ToggleSwitchSize {
    fn default() -> (r: Self)
        ensures
            r == ToggleSwitchSize::Medium,
    {
        ToggleSwitchSize::Medium
    }
}

/// Abstract contents of a `ToggleSwitch`.
pub struct ToggleSwitchView {
    pub base: BaseView,
    pub checked: bool,
    pub label: Option<Seq<char>>,
    pub size: ToggleSwitchSize,
    pub disabled: bool,
}

/// An on/off switch.
#[derive(Debug)]
pub struct ToggleSwitch {
    base: WidgetBase,
    checked: bool,
    label: Option<String>,
    size: ToggleSwitchSize,
    disabled: bool,
}

impl View for ToggleSwitch {
    type V = ToggleSwitchView;

    closed spec fn view(&self) -> ToggleSwitchView {
        ToggleSwitchView {
            base: self.base@,
            checked: self.checked,
            label: opt_view(&self.label),
            size: self.size,
            disabled: self.disabled,
        }
    }
}

/// The switch after a toggle: flipped unless disabled.
pub open spec fn toggled(v: ToggleSwitchView) -> ToggleSwitchView {
    if v.disabled { v } else { ToggleSwitchView { checked: !v.checked, ..v } }
}

impl ToggleSwitch {
    /// An enabled, unchecked, medium switch without a label.
    pub fn new(ids: &mut WidgetIds) -> (r: Self)
        ensures
            r@.base.id == old(ids)@,
            final(ids)@ == succ_id(old(ids)@),
            r@.base.classes == seq!["toggle-switch"@],
            r@.base.element_id is None,
            r@.base.state == cleared_state(),
            !r@.checked,
            r@.label is None,
            r@.size == ToggleSwitchSize::Medium,
            !r@.disabled,
    {
        ToggleSwitch {
            base: WidgetBase::new(ids).with_class("toggle-switch"),
            checked: false,
            label: None,
            size: ToggleSwitchSize::Medium,
            disabled: false,
        }
    }

    /// Set the initial checked state.
    pub fn checked(self, checked: bool) -> (r: Self)
        ensures
            r@ == (ToggleSwitchView { checked, ..self@ }),
    {
        ToggleSwitch { checked, ..self }
    }

    /// Set the label.
    pub fn label(self, label: &str) -> (r: Self)
        ensures
            r@ == (ToggleSwitchView { label: Some(label@), ..self@ }),
    {
        ToggleSwitch { label: Some(owned(label)), ..self }
    }

    /// Set the size.
    pub fn size(self, size: ToggleSwitchSize) -> (r: Self)
        ensures
            r@ == (ToggleSwitchView { size, ..self@ }),
    {
        ToggleSwitch { size, ..self }
    }

    /// Enable or disable the switch (the state's `disabled` flag follows).
    pub fn disabled(self, disabled: bool) -> (r: Self)
        ensures
            r@ == (ToggleSwitchView {
                disabled,
                base: BaseView { state: WidgetState { disabled, ..self@.base.state }, ..self@.base },
                ..self@
            }),
    {
        let mut s = self;
        s.disabled = disabled;
        s.base.state.disabled = disabled;
        s
    }

    /// Add a CSS class.
    pub fn class(self, class: &str) -> (r: Self)
        ensures
            r@ == (ToggleSwitchView { base: BaseView { classes: added(self@.base.classes, class@), ..self@.base }, ..self@ }),
    {
        let mut s = self;
        s.base.classes.add(class);
        s
    }

    /// Whether the switch is on.
    pub fn is_checked(&self) -> (r: bool)
        ensures
            r == self@.checked,
    {
        self.checked
    }

    /// Flip the switch unless it is disabled; returns whether it flipped
    /// (and the change handler is to be told the new state).
    pub fn toggle(&mut self) -> (r: bool)
        ensures
            final(self)@ == toggled(old(self)@),
            r == !old(self)@.disabled,
    {
        if !self.disabled {
            self.checked = !self.checked;
            true
        } else {
            false
        }
    }

    /// Set the checked state; returns whether it changed (and the change
    /// handler is to be told the new state).
    pub fn set_checked(&mut self, checked: bool) -> (r: bool)
        ensures
            final(self)@ == (ToggleSwitchView { checked, ..old(self)@ }),
            r == (old(self)@.checked != checked),
    {
        if self.checked != checked {
            self.checked = checked;
            true
        } else {
            false
        }
    }

    /// Handles a pointer event. A disabled switch ignores everything;
    /// otherwise moves and leaves track the hover state, and releasing the
    /// left button inside toggles it. Returns the event result and whether
    /// the switch toggled.
    pub fn handle_pointer(&mut self, ev: PointerEvent, ctx: &mut EventContext) -> (r: (EventResult, bool))
        ensures
            final(ctx).focus == old(ctx).focus,
            ({
                let v = old(self)@;
                if v.disabled {
                    &&& final(self)@ == v
                    &&& r == (EventResult::Ignored, false)
                    &&& final(ctx).should_redraw == old(ctx).should_redraw
                } else {
                    match ev.kind {
                        MouseEventKind::Enter | MouseEventKind::Move => {
                            let step = hover_step(v.base.state, ev.in_bounds);
                            &&& final(self)@ == (ToggleSwitchView { base: BaseView { state: step.state, ..v.base }, ..v })
                            &&& r == (EventResult::Ignored, false)
                            &&& final(ctx).should_redraw == (old(ctx).should_redraw || step.redraw)
                        },
                        MouseEventKind::Leave => {
                            let step = leave_step(v.base.state);
                            &&& final(self)@ == (ToggleSwitchView { base: BaseView { state: step.state, ..v.base }, ..v })
                            &&& r == (EventResult::Ignored, false)
                            &&& final(ctx).should_redraw == (old(ctx).should_redraw || step.redraw)
                        },
                        MouseEventKind::Up => if is_left(ev.button) && ev.in_bounds {
                            &&& final(self)@ == toggled(v)
                            &&& r == (EventResult::Handled, true)
                            &&& final(ctx).should_redraw
                        } else {
                            &&& final(self)@ == v
                            &&& r == (EventResult::Ignored, false)
                            &&& final(ctx).should_redraw == old(ctx).should_redraw
                        },
                        _ => {
                            &&& final(self)@ == v
                            &&& r == (EventResult::Ignored, false)
                            &&& final(ctx).should_redraw == old(ctx).should_redraw
                        },
                    }
                }
            }),
    {
        if self.disabled {
            return (EventResult::Ignored, false);
        }
        match ev.kind {
            MouseEventKind::Enter | MouseEventKind::Move => {
                track_hover(&mut self.base, ev.in_bounds, ctx);
                (EventResult::Ignored, false)
            },
            MouseEventKind::Leave => {
                track_leave(&mut self.base, ctx);
                (EventResult::Ignored, false)
            },
            MouseEventKind::Up => {
                if left_button(ev.button) && ev.in_bounds {
                    let flipped = self.toggle();
                    ctx.request_redraw();
                    (EventResult::Handled, flipped)
                } else {
                    (EventResult::Ignored, false)
                }
            },
            _ => (EventResult::Ignored, false),
        }
    }
}

/// Toggling twice restores the switch; a disabled switch never changes by
/// a toggle; setting the checked state twice to the same value changes
/// nothing the second time.
pub proof fn lemma_switch_toggle_twice(v: ToggleSwitchView, c: bool)
    ensures
        toggled(toggled(v)) == v,
        v.disabled ==> toggled(v) == v,
        (ToggleSwitchView { checked: c, ..(ToggleSwitchView { checked: c, ..v }) }) == (ToggleSwitchView { checked: c, ..v }),
{
}

impl Widget for ToggleSwitch {
    fn id(&self) -> (r: WidgetId)
        ensures
            r == self@.base.id,
    {
        self.base.id
    }

    fn widget_type_name(&self) -> (r: &'static str)
        ensures
            r@ == "toggle-switch"@,
    {
        "toggle-switch"
    }

    fn element_id(&self) -> (r: Option<&str>)
        ensures
            match r {
                Some(s) => self@.base.element_id == Some(s@),
                None => self@.base.element_id is None,
            },
    {
        self.base.element_id_str()
    }

    fn classes(&self) -> (r: &ClassList)
        ensures
            r@ == self@.base.classes,
    {
        &self.base.classes
    }

    fn state(&self) -> (r: WidgetState)
        ensures
            r == self@.base.state,
    {
        self.base.state
    }
}

} // verus!
