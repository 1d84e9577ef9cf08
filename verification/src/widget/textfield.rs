//! Single-line text field widget.
use vstd::prelude::*;

use super::pointer::{hover_step, leave_step};
use super::pointer::{track_hover, track_leave};
use super::{BaseView, EventContext, Widget, WidgetBase, WidgetId, WidgetIds, succ_id};
use crate::css::{added, cleared_state, ClassList, WidgetState};
use crate::event::{is_left, left_button, EventResult, Key, KeyEvent, KeyEventKind, MouseEventKind, PointerEvent};
use crate::text::{char_count, insert_at, inserted, owned, remove_at, removed};

verus! {

/// Abstract contents of a `TextField`; the cursor counts characters.
pub struct TextFieldView {
    pub base: BaseView,
    pub value: Seq<char>,
    pub placeholder: Seq<char>,
    pub cursor: nat,
}

/// What the owner of a text field is asked to do after an edit: report
/// the new value to the change handler, or submit the value.
#[derive(Debug, Clone, Copy, PartialEq, Eq, Structural)]
pub enum TextFieldAction {
    Nothing,
    Changed,
    Submit,
}

/// A single-line text input widget.
#[derive(Debug)]
pub struct TextField {
    base: WidgetBase,
    value: String,
    placeholder: String,
    cursor_position: usize,
}

impl View for TextField {
    type V = TextFieldView;

    closed spec fn view(&self) -> TextFieldView {
        TextFieldView {
            base: self.base@,
            value: self.value@,
            placeholder: self.placeholder@,
            cursor: self.cursor_position as nat,
        }
    }
}

/// The cursor stands within the value.
pub open spec fn textfield_wf(v: TextFieldView) -> bool {
    v.cursor <= v.value.len()
}

/// The field after inserting `t` at the cursor.
pub open spec fn after_insert(v: TextFieldView, t: Seq<char>) -> TextFieldView {
    TextFieldView { value: inserted(v.value, v.cursor as int, t), cursor: v.cursor + t.len(), ..v }
}

/// The field after a backspace: the character before the cursor goes.
pub open spec fn after_backspace(v: TextFieldView) -> TextFieldView {
    if v.cursor > 0 {
        TextFieldView { value: removed(v.value, v.cursor - 1), cursor: (v.cursor - 1) as nat, ..v }
    } else {
        v
    }
}

/// The field after a delete: the character at the cursor goes.
pub open spec fn after_delete(v: TextFieldView) -> TextFieldView {
    if v.cursor < v.value.len() {
        TextFieldView { value: removed(v.value, v.cursor as int), ..v }
    } else {
        v
    }
}

/// The field with its keyboard focus flag set to `f`.
pub open spec fn with_focus(v: TextFieldView, f: bool) -> TextFieldView {
    TextFieldView { base: BaseView { state: WidgetState { focused: f, ..v.base.state }, ..v.base }, ..v }
}

/// The field with its base state set to `s`.
pub open spec fn with_state(v: TextFieldView, s: WidgetState) -> TextFieldView {
    TextFieldView { base: BaseView { state: s, ..v.base }, ..v }
}

impl TextField {
    /// Whether the cursor lies within the value (see `textfield_wf`); the
    /// field's own operations keep this so.
    pub fn well_formed(&self) -> (r: bool)
        ensures
            r == textfield_wf(self@),
    {
        self.cursor_position <= char_count(self.value.as_str())
    }

    /// An empty field without placeholder.
    pub fn new(ids: &mut WidgetIds) -> (r: Self)
        ensures
            r@.base.id == old(ids)@,
            final(ids)@ == succ_id(old(ids)@),
            r@.base.classes == seq!["textfield"@],
            r@.base.element_id is None,
            r@.base.state == cleared_state(),
            r@.value == Seq::<char>::empty(),
            r@.placeholder == Seq::<char>::empty(),
            r@.cursor == 0,
            textfield_wf(r@),
    {
        TextField {
            base: WidgetBase::new(ids).with_class("textfield"),
            value: String::new(),
            placeholder: String::new(),
            cursor_position: 0,
        }
    }

    /// Set the initial value; the cursor goes to its end.
    pub fn value(self, value: &str) -> (r: Self)
        ensures
            r@ == (TextFieldView { value: value@, cursor: value@.len(), ..self@ }),
            textfield_wf(r@),
    {
        let n = char_count(value);
        TextField { value: owned(value), cursor_position: n, ..self }
    }

    /// Set the placeholder text.
    pub fn placeholder(self, placeholder: &str) -> (r: Self)
        ensures
            r@ == (TextFieldView { placeholder: placeholder@, ..self@ }),
    {
        TextField { placeholder: owned(placeholder), ..self }
    }

    /// Add a CSS class.
    pub fn class(self, class: &str) -> (r: Self)
        ensures
            r@ == (TextFieldView { base: BaseView { classes: added(self@.base.classes, class@), ..self@.base }, ..self@ }),
    {
        let mut c = self;
        c.base.classes.add(class);
        c
    }

    /// Set the element ID.
    pub fn id(self, id: &str) -> (r: Self)
        ensures
            r@ == (TextFieldView { base: BaseView { element_id: Some(id@), ..self@.base }, ..self@ }),
    {
        let mut c = self;
        c.base.element_id = Some(owned(id));
        c
    }

    /// The current value.
    pub fn get_value(&self) -> (r: &str)
        ensures
            r@ == self@.value,
    {
        self.value.as_str()
    }

    /// The placeholder text.
    pub fn get_placeholder(&self) -> (r: &str)
        ensures
            r@ == self@.placeholder,
    {
        self.placeholder.as_str()
    }

    /// The cursor position, in characters.
    pub fn cursor_position(&self) -> (r: usize)
        ensures
            r == self@.cursor,
    {
        self.cursor_position
    }

    /// Replace the value; the cursor goes to its end. The change handler
    /// is then told of the new value.
    pub fn set_value(&mut self, value: &str)
        ensures
            final(self)@ == (TextFieldView { value: value@, cursor: value@.len(), ..old(self)@ }),
            textfield_wf(final(self)@),
    {
        self.value = owned(value);
        self.cursor_position = char_count(value);
    }

    /// Insert text at the cursor; the cursor moves past it. The change
    /// handler is then told of the new value.
    pub fn insert_text(&mut self, text: &str)
        requires
            textfield_wf(old(self)@),
        ensures
            final(self)@ == after_insert(old(self)@, text@),
            textfield_wf(final(self)@),
    {
        let k = char_count(text);
        let t = insert_at(self.value.as_str(), self.cursor_position, text);
        let total = char_count(t.as_str());
        assert(total == self.cursor_position + k + (old(self)@.value.len() - self.cursor_position));
        self.value = t;
        self.cursor_position = self.cursor_position + k;
    }

    /// Delete the character before the cursor; returns whether one was
    /// deleted (and the change handler is to be told).
    pub fn backspace(&mut self) -> (r: bool)
        requires
            textfield_wf(old(self)@),
        ensures
            final(self)@ == after_backspace(old(self)@),
            r == (old(self)@.cursor > 0),
            textfield_wf(final(self)@),
    {
        if self.cursor_position > 0 {
            self.value = remove_at(self.value.as_str(), self.cursor_position - 1);
            self.cursor_position = self.cursor_position - 1;
            true
        } else {
            false
        }
    }

    /// Delete the character at the cursor; returns whether one was deleted
    /// (and the change handler is to be told).
    pub fn delete(&mut self) -> (r: bool)
        requires
            textfield_wf(old(self)@),
        ensures
            final(self)@ == after_delete(old(self)@),
            r == (old(self)@.cursor < old(self)@.value.len()),
            textfield_wf(final(self)@),
    {
        if self.cursor_position < char_count(self.value.as_str()) {
            self.value = remove_at(self.value.as_str(), self.cursor_position);
            true
        } else {
            false
        }
    }

    /// Handles a pointer event. A left press inside focuses the field and
    /// puts the cursor at `click_index` (the character position under the
    /// pointer), at most at the end; a left press outside while focused
    /// drops the focus; moves and leaves track the hover state.
    pub fn handle_pointer(&mut self, ev: PointerEvent, click_index: usize, ctx: &mut EventContext) -> (r: EventResult)
        requires
            textfield_wf(old(self)@),
        ensures
            textfield_wf(final(self)@),
            ({
                let v = old(self)@;
                match ev.kind {
                    MouseEventKind::Enter | MouseEventKind::Move => {
                        let step = hover_step(v.base.state, ev.in_bounds);
                        &&& final(self)@ == with_state(v, step.state)
                        &&& r == EventResult::Ignored
                        &&& final(ctx).focus == old(ctx).focus
                        &&& final(ctx).should_redraw == (old(ctx).should_redraw || step.redraw)
                    },
                    MouseEventKind::Leave => {
                        let step = leave_step(v.base.state);
                        &&& final(self)@ == with_state(v, step.state)
                        &&& r == EventResult::Ignored
                        &&& final(ctx).focus == old(ctx).focus
                        &&& final(ctx).should_redraw == (old(ctx).should_redraw || step.redraw)
                    },
                    MouseEventKind::Down => if ev.in_bounds && is_left(ev.button) {
                        &&& final(self)@ == (TextFieldView {
                            cursor: if click_index < v.value.len() { click_index as nat } else { v.value.len() },
                            ..with_focus(v, true)
                        })
                        &&& r == EventResult::Handled
                        &&& final(ctx).focus == Some(v.base.id)
                        &&& final(ctx).should_redraw
                    } else if !ev.in_bounds && v.base.state.focused {
                        &&& final(self)@ == with_focus(v, false)
                        &&& r == EventResult::Ignored
                        &&& final(ctx).focus is None
                        &&& final(ctx).should_redraw
                    } else {
                        &&& final(self)@ == v
                        &&& r == EventResult::Ignored
                        &&& final(ctx).focus == old(ctx).focus
                        &&& final(ctx).should_redraw == old(ctx).should_redraw
                    },
                    _ => {
                        &&& final(self)@ == v
                        &&& r == EventResult::Ignored
                        &&& final(ctx).focus == old(ctx).focus
                        &&& final(ctx).should_redraw == old(ctx).should_redraw
                    },
                }
            }),
    {
        match ev.kind {
            MouseEventKind::Enter | MouseEventKind::Move => {
                track_hover(&mut self.base, ev.in_bounds, ctx);
            },
            MouseEventKind::Leave => {
                track_leave(&mut self.base, ctx);
            },
            MouseEventKind::Down => {
                if ev.in_bounds && left_button(ev.button) {
                    self.base.state.focused = true;
                    ctx.request_focus(self.base.id);
                    let n = char_count(self.value.as_str());
                    self.cursor_position = if click_index < n { click_index } else { n };
                    ctx.request_redraw();
                    return EventResult::Handled;
                } else if !ev.in_bounds && self.base.state.focused {
                    self.base.state.focused = false;
                    ctx.release_focus();
                    ctx.request_redraw();
                }
            },
            _ => {},
        }
        EventResult::Ignored
    }

    /// Handles a key event while the field has the focus: Backspace and
    /// Delete edit, the arrows, Home and End move the cursor, Enter asks
    /// for a submit, and text typed without Control or Alt is inserted.
    pub fn handle_key(&mut self, ev: &KeyEvent, ctx: &mut EventContext) -> (r: (EventResult, TextFieldAction))
        requires
            textfield_wf(old(self)@),
        ensures
            textfield_wf(final(self)@),
            final(ctx).focus == old(ctx).focus,
            !(old(self)@.base.state.focused && ev.kind == KeyEventKind::Down) ==> {
                &&& final(self)@ == old(self)@
                &&& r == (EventResult::Ignored, TextFieldAction::Nothing)
                &&& final(ctx).should_redraw == old(ctx).should_redraw
            },
            old(self)@.base.state.focused && ev.kind == KeyEventKind::Down ==> {
                let v = old(self)@;
                let c = v.cursor;
                let n = v.value.len();
                match ev.key {
                    Key::Backspace => {
                        &&& final(self)@ == after_backspace(v)
                        &&& r == (EventResult::Handled, if c > 0 { TextFieldAction::Changed } else { TextFieldAction::Nothing })
                        &&& final(ctx).should_redraw
                    },
                    Key::Delete => {
                        &&& final(self)@ == after_delete(v)
                        &&& r == (EventResult::Handled, if c < n { TextFieldAction::Changed } else { TextFieldAction::Nothing })
                        &&& final(ctx).should_redraw
                    },
                    Key::Left => {
                        &&& final(self)@ == (if c > 0 { TextFieldView { cursor: (c - 1) as nat, ..v } } else { v })
                        &&& r == (EventResult::Handled, TextFieldAction::Nothing)
                        &&& final(ctx).should_redraw == (old(ctx).should_redraw || c > 0)
                    },
                    Key::Right => {
                        &&& final(self)@ == (if c < n { TextFieldView { cursor: c + 1, ..v } } else { v })
                        &&& r == (EventResult::Handled, TextFieldAction::Nothing)
                        &&& final(ctx).should_redraw == (old(ctx).should_redraw || c < n)
                    },
                    Key::Home => {
                        &&& final(self)@ == (TextFieldView { cursor: 0, ..v })
                        &&& r == (EventResult::Handled, TextFieldAction::Nothing)
                        &&& final(ctx).should_redraw
                    },
                    Key::End => {
                        &&& final(self)@ == (TextFieldView { cursor: n, ..v })
                        &&& r == (EventResult::Handled, TextFieldAction::Nothing)
                        &&& final(ctx).should_redraw
                    },
                    Key::Enter => {
                        &&& final(self)@ == v
                        &&& r == (EventResult::Handled, TextFieldAction::Submit)
                        &&& final(ctx).should_redraw == old(ctx).should_redraw
                    },
                    _ => if ev.text is Some && ev.text->0@.len() > 0 && !ev.modifiers.control && !ev.modifiers.alt {
                        &&& final(self)@ == after_insert(v, ev.text->0@)
                        &&& r == (EventResult::Handled, TextFieldAction::Changed)
                        &&& final(ctx).should_redraw
                    } else {
                        &&& final(self)@ == v
                        &&& r == (EventResult::Ignored, TextFieldAction::Nothing)
                        &&& final(ctx).should_redraw == old(ctx).should_redraw
                    },
                }
            },
    {
        if !(self.base.state.focused && ev.kind == KeyEventKind::Down) {
            return (EventResult::Ignored, TextFieldAction::Nothing);
        }
        match ev.key {
            Key::Backspace => {
                let changed = self.backspace();
                ctx.request_redraw();
                (EventResult::Handled, if changed { TextFieldAction::Changed } else { TextFieldAction::Nothing })
            },
            Key::Delete => {
                let changed = self.delete();
                ctx.request_redraw();
                (EventResult::Handled, if changed { TextFieldAction::Changed } else { TextFieldAction::Nothing })
            },
            Key::Left => {
                if self.cursor_position > 0 {
                    self.cursor_position = self.cursor_position - 1;
                    ctx.request_redraw();
                }
                (EventResult::Handled, TextFieldAction::Nothing)
            },
            Key::Right => {
                if self.cursor_position < char_count(self.value.as_str()) {
                    self.cursor_position = self.cursor_position + 1;
                    ctx.request_redraw();
                }
                (EventResult::Handled, TextFieldAction::Nothing)
            },
            Key::Home => {
                self.cursor_position = 0;
                ctx.request_redraw();
                (EventResult::Handled, TextFieldAction::Nothing)
            },
            Key::End => {
                self.cursor_position = char_count(self.value.as_str());
                ctx.request_redraw();
                (EventResult::Handled, TextFieldAction::Nothing)
            },
            Key::Enter => (EventResult::Handled, TextFieldAction::Submit),
            _ => {
                match &ev.text {
                    Some(s) => {
                        if char_count(s.as_str()) > 0 && !ev.modifiers.control && !ev.modifiers.alt {
                            self.insert_text(s.as_str());
                            ctx.request_redraw();
                            (EventResult::Handled, TextFieldAction::Changed)
                        } else {
                            (EventResult::Ignored, TextFieldAction::Nothing)
                        }
                    },
                    None => (EventResult::Ignored, TextFieldAction::Nothing),
                }
            },
        }
    }
}

/// Typing one character and deleting it again with Backspace gives back
/// the field as it was; Delete right after Home then removes the first
/// character.
pub proof fn lemma_type_then_backspace(v: TextFieldView, c: char)
    requires
        textfield_wf(v),
    ensures
        after_backspace(after_insert(v, seq![c])) == v,
        v.value.len() > 0 ==> after_delete(TextFieldView { cursor: 0, ..v }).value == v.value.skip(1),
{
    let w = after_insert(v, seq![c]);
    assert(w.cursor == v.cursor + 1);
    assert(removed(w.value, v.cursor as int) =~= v.value);
    if v.value.len() > 0 {
        assert(removed(v.value, 0) =~= v.value.skip(1));
    }
}

impl Widget for TextField {
    fn id(&self) -> (r: WidgetId)
        ensures
            r == self@.base.id,
    {
        self.base.id
    }

    fn widget_type_name(&self) -> (r: &'static str)
        ensures
            r@ == "textfield"@,
    {
        "textfield"
    }

    fn element_id(&self) -> (r: Option<&str>)
        ensures
            match r {
                Some(s) => self@.base.element_id == Some(s@),
                None => self@.base.element_id is None,
            },
    {
        self.base.element_id_str()
    }

    fn classes(&self) -> (r: &ClassList)
        ensures
            r@ == self@.base.classes,
    {
        &self.base.classes
    }

    fn state(&self) -> (r: WidgetState)
        ensures
            r == self@.base.state,
    {
        self.base.state
    }
}

} // verus!
