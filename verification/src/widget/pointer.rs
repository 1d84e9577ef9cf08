//! The pointer state machine that clickable widgets share: hover tracking,
//! press on left-button down inside the bounds, activation on release.
use vstd::prelude::*;

use std::time::Instant;

use super::desktop::DOUBLE_CLICK_MILLIS;
use super::{EventContext, WidgetBase, WidgetId};
use crate::css::WidgetState;
use crate::event::{is_left, left_button, EventResult, MouseEventKind, PointerEvent};
use crate::text::{opt_view, owned, str_eq};
use crate::time::{elapsed_between, millis_of};

verus! {

/// The outcome of one pointer event for a clickable widget.
pub struct PointerStep {
    pub state: WidgetState,
    pub result: EventResult,
    pub activated: bool,
    pub focus: bool,
    pub redraw: bool,
}

/// A step that changes nothing and reports the event as ignored.
pub open spec fn idle_step(s: WidgetState) -> PointerStep {
    PointerStep { state: s, result: EventResult::Ignored, activated: false, focus: false, redraw: false }
}

/// Hover tracking on a move or enter event.
pub open spec fn hover_step(s: WidgetState, in_bounds: bool) -> PointerStep {
    if in_bounds && !s.hovered {
        PointerStep { state: WidgetState { hovered: true, ..s }, redraw: true, ..idle_step(s) }
    } else if !in_bounds && s.hovered {
        PointerStep { state: WidgetState { hovered: false, ..s }, redraw: true, ..idle_step(s) }
    } else {
        idle_step(s)
    }
}

/// Hover tracking on a leave event.
pub open spec fn leave_step(s: WidgetState) -> PointerStep {
    if s.hovered {
        PointerStep { state: WidgetState { hovered: false, ..s }, redraw: true, ..idle_step(s) }
    } else {
        idle_step(s)
    }
}

/// The press-and-release machine: a left press inside the bounds presses
/// the widget and takes the focus; releasing the left button while pressed
/// activates it when the pointer is still inside.
pub open spec fn press_click_step(s: WidgetState, ev: PointerEvent) -> PointerStep {
    match ev.kind {
        MouseEventKind::Enter | MouseEventKind::Move => hover_step(s, ev.in_bounds),
        MouseEventKind::Leave => leave_step(s),
        MouseEventKind::Down => if ev.in_bounds && is_left(ev.button) {
            PointerStep {
                state: WidgetState { pressed: true, ..s },
                result: EventResult::Handled,
                activated: false,
                focus: true,
                redraw: true,
            }
        } else {
            idle_step(s)
        },
        MouseEventKind::Up => if s.pressed && is_left(ev.button) {
            PointerStep {
                state: WidgetState { pressed: false, ..s },
                result: EventResult::Handled,
                activated: ev.in_bounds,
                focus: false,
                redraw: true,
            }
        } else {
            idle_step(s)
        },
        MouseEventKind::Scroll => idle_step(s),
    }
}

/// How the event context changes when a widget with identifier `id` takes `step`.
pub open spec fn context_after(old_focus: Option<WidgetId>, old_redraw: bool, id: WidgetId, step: PointerStep) -> (Option<WidgetId>, bool) {
    (if step.focus { Some(id) } else { old_focus }, old_redraw || step.redraw)
}

/// Applies hover tracking to `base` for a move or enter event.
pub fn track_hover(base: &mut WidgetBase, in_bounds: bool, ctx: &mut EventContext)
    ensures
        final(base).state == hover_step(old(base).state, in_bounds).state,
        final(base).id == old(base).id,
        final(base)@.classes == old(base)@.classes,
        final(base)@.element_id == old(base)@.element_id,
        final(ctx).focus == old(ctx).focus,
        final(ctx).should_redraw == (old(ctx).should_redraw || hover_step(old(base).state, in_bounds).redraw),
{
    if in_bounds && !base.state.hovered {
        base.state.hovered = true;
        ctx.request_redraw();
    } else if !in_bounds && base.state.hovered {
        base.state.hovered = false;
        ctx.request_redraw();
    }
}

/// Applies hover tracking to `base` for a leave event.
pub fn track_leave(base: &mut WidgetBase, ctx: &mut EventContext)
    ensures
        final(base).state == leave_step(old(base).state).state,
        final(base).id == old(base).id,
        final(base)@.classes == old(base)@.classes,
        final(base)@.element_id == old(base)@.element_id,
        final(ctx).focus == old(ctx).focus,
        final(ctx).should_redraw == (old(ctx).should_redraw || leave_step(old(base).state).redraw),
{
    if base.state.hovered {
        base.state.hovered = false;
        ctx.request_redraw();
    }
}

/// Runs the press-and-release machine on `base`; returns the event result
/// and whether the widget was activated.
pub fn press_click(base: &mut WidgetBase, ev: PointerEvent, ctx: &mut EventContext) -> (r: (EventResult, bool))
    ensures
        ({
            let step = press_click_step(old(base).state, ev);
            &&& final(base).state == step.state
            &&& r == (step.result, step.activated)
            &&& (final(ctx).focus, final(ctx).should_redraw)
                == context_after(old(ctx).focus, old(ctx).should_redraw, old(base).id, step)
        }),
        final(base).id == old(base).id,
        final(base)@.classes == old(base)@.classes,
        final(base)@.element_id == old(base)@.element_id,
{
    match ev.kind {
        MouseEventKind::Enter | MouseEventKind::Move => {
            track_hover(base, ev.in_bounds, ctx);
            (EventResult::Ignored, false)
        },
        MouseEventKind::Leave => {
            track_leave(base, ctx);
            (EventResult::Ignored, false)
        },
        MouseEventKind::Down => {
            if ev.in_bounds && left_button(ev.button) {
                base.state.pressed = true;
                ctx.request_focus(base.id);
                ctx.request_redraw();
                (EventResult::Handled, false)
            } else {
                (EventResult::Ignored, false)
            }
        },
        MouseEventKind::Up => {
            if base.state.pressed && left_button(ev.button) {
                base.state.pressed = false;
                ctx.request_redraw();
                (EventResult::Handled, ev.in_bounds)
            } else {
                (EventResult::Ignored, false)
            }
        },
        MouseEventKind::Scroll => (EventResult::Ignored, false),
    }
}

/// Abstract contents of a `ClickMemory`.
pub struct ClickMemoryView {
    pub time: Option<Instant>,
    pub id: Option<Seq<char>>,
}

/// The last click a widget remembers, to tell a double-click: when it
/// happened and on which item.
#[derive(Debug)]
pub struct ClickMemory {
    time: Option<Instant>,
    id: Option<String>,
}

impl View for ClickMemory {
    type V = ClickMemoryView;

    closed spec fn view(&self) -> ClickMemoryView {
        ClickMemoryView { time: self.time, id: opt_view(&self.id) }
    }
}

/// A memory of no click.
pub open spec fn no_click() -> ClickMemoryView {
    ClickMemoryView { time: None, id: None }
}

/// A press on the item `id`, `elapsed` milliseconds after the remembered
/// click (when one is remembered), completes a double-click: the
/// remembered click was on the same item and the gap is shorter than the
/// double-click gap.
pub open spec fn second_click(m: ClickMemoryView, id: Seq<char>, elapsed: Option<u128>) -> bool {
    &&& m.time is Some
    &&& m.id == Some(id)
    &&& elapsed matches Some(ms) && ms < DOUBLE_CLICK_MILLIS
}

impl ClickMemory {
    /// A memory of no click.
    pub fn new() -> (r: Self)
        ensures
            r@ == no_click(),
    {
        ClickMemory { time: None, id: None }
    }

    /// Whether a press on `id` completes a double-click (see `second_click`).
    pub fn is_second_click(&self, id: &str, elapsed: Option<u128>) -> (r: bool)
        ensures
            r == second_click(self@, id@, elapsed),
    {
        let same = match &self.id {
            Some(last) => str_eq(last.as_str(), id),
            None => false,
        };
        let quick = match elapsed {
            Some(ms) => ms < DOUBLE_CLICK_MILLIS,
            None => false,
        };
        self.time.is_some() && same && quick
    }

    /// Remember a click on `id` at clock reading `now`.
    pub fn remember(&mut self, now: Instant, id: &str)
        ensures
            final(self)@ == (ClickMemoryView { time: Some(now), id: Some(id@) }),
    {
        self.time = Some(now);
        self.id = Some(owned(id));
    }

    /// Forget the remembered click.
    pub fn forget(&mut self)
        ensures
            final(self)@ == no_click(),
    {
        self.time = None;
        self.id = None;
    }

    /// The milliseconds from the remembered click to `now`, when a click is
    /// remembered.
    pub fn elapsed(&self, now: &Instant) -> (r: Option<u128>)
        ensures
            self@.time is None <==> r is None,
    {
        match &self.time {
            Some(t) => {
                let d = elapsed_between(now, t);
                Some(millis_of(&d))
            },
            None => None,
        }
    }
}

} // verus!
