//! Checkbox widget.
use vstd::prelude::*;

use super::pointer::{context_after, press_click, press_click_step};
use super::{BaseView, EventContext, Widget, WidgetBase, WidgetId, WidgetIds, succ_id};
use crate::css::{added, cleared_state, ClassList, WidgetState};
use crate::event::{EventResult, PointerEvent};
use crate::text::{opt_view, owned};

verus! {

/// Abstract contents of a `Checkbox`.
pub struct CheckboxView {
    pub base: BaseView,
    pub label: Option<Seq<char>>,
    pub checked: bool,
}

/// A checkbox widget.
pub struct Checkbox {
    base: WidgetBase,
    label: Option<String>,
    checked: bool,
}

impl View for Checkbox {
    type V = CheckboxView;

    closed spec fn view(&self) -> CheckboxView {
        CheckboxView { base: self.base@, label: opt_view(&self.label), checked: self.checked }
    }
}

/// The checked flag and the state's `checked` flag agree.
pub open spec fn checkbox_wf(v: CheckboxView) -> bool {
    v.base.state.checked == v.checked
}

/// The checkbox with its checked flag (and the state's) set to `c`.
pub open spec fn with_checked(v: CheckboxView, c: bool) -> CheckboxView {
    CheckboxView { checked: c, base: BaseView { state: WidgetState { checked: c, ..v.base.state }, ..v.base }, ..v }
}

impl Checkbox {
    /// An unchecked checkbox without a label.
    pub fn new(ids: &mut WidgetIds) -> (r: Self)
        ensures
            r@.base.id == old(ids)@,
            final(ids)@ == succ_id(old(ids)@),
            r@.base.classes == seq!["checkbox"@],
            r@.base.element_id is None,
            r@.base.state == cleared_state(),
            r@.label is None,
            !r@.checked,
            checkbox_wf(r@),
    {
        Checkbox { base: WidgetBase::new(ids).with_class("checkbox"), label: None, checked: false }
    }

    /// Set the label.
    pub fn label(self, label: &str) -> (r: Self)
        ensures
            r@ == (CheckboxView { label: Some(label@), ..self@ }),
    {
        Checkbox { label: Some(owned(label)), ..self }
    }

    /// Set the initial checked state.
    pub fn checked(self, checked: bool) -> (r: Self)
        ensures
            r@ == with_checked(self@, checked),
    {
        let mut c = self;
        c.checked = checked;
        c.base.state.checked = checked;
        c
    }

    /// Add a CSS class.
    pub fn class(self, class: &str) -> (r: Self)
        ensures
            r@ == (CheckboxView { base: BaseView { classes: added(self@.base.classes, class@), ..self@.base }, ..self@ }),
    {
        let mut c = self;
        c.base.classes.add(class);
        c
    }

    /// Set the element ID.
    pub fn id(self, id: &str) -> (r: Self)
        ensures
            r@ == (CheckboxView { base: BaseView { element_id: Some(id@), ..self@.base }, ..self@ }),
    {
        let mut c = self;
        c.base.element_id = Some(owned(id));
        c
    }

    /// Whether the box is checked.
    pub fn is_checked(&self) -> (r: bool)
        ensures
            r == self@.checked,
    {
        self.checked
    }

    /// Set the checked state.
    pub fn set_checked(&mut self, checked: bool)
        ensures
            final(self)@ == with_checked(old(self)@, checked),
    {
        self.checked = checked;
        self.base.state.checked = checked;
    }

    /// Flip the checked state; returns the new state (the value the change
    /// handler receives).
    pub fn toggle(&mut self) -> (r: bool)
        ensures
            final(self)@ == with_checked(old(self)@, !old(self)@.checked),
            r == !old(self)@.checked,
    {
        let c = !self.checked;
        self.set_checked(c);
        c
    }

    /// Handles a pointer event with the press-and-release machine; a click
    /// toggles the box. Returns the event result and whether it toggled.
    pub fn handle_pointer(&mut self, ev: PointerEvent, ctx: &mut EventContext) -> (r: (EventResult, bool))
        ensures
            ({
                let step = press_click_step(old(self)@.base.state, ev);
                let pressed = CheckboxView { base: BaseView { state: step.state, ..old(self)@.base }, ..old(self)@ };
                &&& final(self)@ == (if step.activated { with_checked(pressed, !old(self)@.checked) } else { pressed })
                &&& r == (step.result, step.activated)
                &&& (final(ctx).focus, final(ctx).should_redraw)
                    == context_after(old(ctx).focus, old(ctx).should_redraw, old(self)@.base.id, step)
            }),
    {
        let (res, clicked) = press_click(&mut self.base, ev, ctx);
        if clicked {
            self.toggle();
        }
        (res, clicked)
    }
}

/// Toggling twice restores the checked state, and setting then reading
/// gives back what was set.
pub proof fn lemma_checkbox_toggle_twice(v: CheckboxView, c: bool)
    ensures
        with_checked(with_checked(v, !v.checked), !with_checked(v, !v.checked).checked) == with_checked(v, v.checked),
        with_checked(v, c).checked == c,
        checkbox_wf(with_checked(v, c)),
{
}

impl Widget for Checkbox {
    fn id(&self) -> (r: WidgetId)
        ensures
            r == self@.base.id,
    {
        self.base.id
    }

    fn widget_type_name(&self) -> (r: &'static str)
        ensures
            r@ == "checkbox"@,
    {
        "checkbox"
    }

    fn element_id(&self) -> (r: Option<&str>)
        ensures
            match r {
                Some(s) => self@.base.element_id == Some(s@),
                None => self@.base.element_id is None,
            },
    {
        self.base.element_id_str()
    }

    fn classes(&self) -> (r: &ClassList)
        ensures
            r@ == self@.base.classes,
    {
        &self.base.classes
    }

    fn state(&self) -> (r: WidgetState)
        ensures
            r == self@.base.state,
    {
        self.base.state
    }
}

} // verus!
