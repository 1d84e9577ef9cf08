//! Password field widget with masked input.
use vstd::prelude::*;

use super::pointer::{hover_step, leave_step, track_hover, track_leave};
use super::textfield::TextFieldAction;
use super::{BaseView, EventContext, Widget, WidgetBase, WidgetId, WidgetIds, succ_id};
use crate::css::{added, cleared_state, ClassList, WidgetState};
use crate::event::{EventResult, Key, KeyEvent, KeyEventKind, MouseEventKind, PointerEvent};
use crate::text::{char_count, control, insert_at, inserted, owned, printable, push_char, remove_at, removed, strip_control};

verus! {

/// Abstract contents of a `PasswordField`; the cursor counts characters.
pub struct PasswordFieldView {
    pub base: BaseView,
    pub value: Seq<char>,
    pub placeholder: Seq<char>,
    pub mask_char: char,
    pub show_toggle: bool,
    pub is_revealed: bool,
    pub cursor: nat,
}

/// A password input field that shows mask characters in place of the
/// value unless it is revealed.
#[derive(Debug)]
pub struct PasswordField {
    base: WidgetBase,
    value: String,
    placeholder: String,
    mask_char: char,
    show_toggle: bool,
    is_revealed: bool,
    cursor_position: usize,
}

impl View for PasswordField {
    type V = PasswordFieldView;

    closed spec fn view(&self) -> PasswordFieldView {
        PasswordFieldView {
            base: self.base@,
            value: self.value@,
            placeholder: self.placeholder@,
            mask_char: self.mask_char,
            show_toggle: self.show_toggle,
            is_revealed: self.is_revealed,
            cursor: self.cursor_position as nat,
        }
    }
}

/// The cursor stands within the value.
pub open spec fn password_wf(v: PasswordFieldView) -> bool {
    v.cursor <= v.value.len()
}

/// `n` copies of the character `c`.
pub open spec fn repeated(c: char, n: nat) -> Seq<char> {
    Seq::new(n, |i: int| c)
}

/// What the field shows: the value itself when revealed, else one mask
/// character per character of the value.
pub open spec fn shown_text(v: PasswordFieldView) -> Seq<char> {
    if v.is_revealed { v.value } else { repeated(v.mask_char, v.value.len()) }
}

/// One key press on the field: the new field, whether the key was
/// consumed, and what the owner is asked to do. Backspace, Delete and the
/// arrows act only when there is something to act on; otherwise, like any
/// other key, they fall through to text input, which inserts the typed
/// text without its control characters.
pub open spec fn password_key_step(v: PasswordFieldView, key: Key, text: Option<Seq<char>>) -> (PasswordFieldView, bool, TextFieldAction) {
    let c = v.cursor;
    let n = v.value.len();
    if key == Key::Backspace && c > 0 {
        (PasswordFieldView { value: removed(v.value, c - 1), cursor: (c - 1) as nat, ..v }, true, TextFieldAction::Changed)
    } else if key == Key::Delete && c < n {
        (PasswordFieldView { value: removed(v.value, c as int), ..v }, true, TextFieldAction::Changed)
    } else if key == Key::Left && c > 0 {
        (PasswordFieldView { cursor: (c - 1) as nat, ..v }, true, TextFieldAction::Nothing)
    } else if key == Key::Right && c < n {
        (PasswordFieldView { cursor: c + 1, ..v }, true, TextFieldAction::Nothing)
    } else if key == Key::Home {
        (PasswordFieldView { cursor: 0, ..v }, true, TextFieldAction::Nothing)
    } else if key == Key::End {
        (PasswordFieldView { cursor: n, ..v }, true, TextFieldAction::Nothing)
    } else if key == Key::Enter {
        (v, true, TextFieldAction::Submit)
    } else {
        match text {
            Some(t) => (
                PasswordFieldView {
                    value: inserted(v.value, c as int, printable(t)),
                    cursor: c + printable(t).len(),
                    ..v
                },
                true,
                TextFieldAction::Changed,
            ),
            None => (v, false, TextFieldAction::Nothing),
        }
    }
}

/// The field with its base state set to `s`.
pub open spec fn with_state(v: PasswordFieldView, s: WidgetState) -> PasswordFieldView {
    PasswordFieldView { base: BaseView { state: s, ..v.base }, ..v }
}

impl PasswordField {
    /// Whether the cursor lies within the value (see `password_wf`); the
    /// field's own operations keep this so.
    pub fn well_formed(&self) -> (r: bool)
        ensures
            r == password_wf(self@),
    {
        self.cursor_position <= char_count(self.value.as_str())
    }

    /// An empty, masked field with the mask `•` and the show/hide toggle.
    pub fn new(ids: &mut WidgetIds) -> (r: Self)
        ensures
            r@.base.id == old(ids)@,
            final(ids)@ == succ_id(old(ids)@),
            r@.base.classes == seq!["password-field"@],
            r@.base.element_id is None,
            r@.base.state == cleared_state(),
            r@.value == Seq::<char>::empty(),
            r@.placeholder == Seq::<char>::empty(),
            r@.mask_char == '•',
            r@.show_toggle,
            !r@.is_revealed,
            r@.cursor == 0,
            password_wf(r@),
    {
        PasswordField {
            base: WidgetBase::new(ids).with_class("password-field"),
            value: String::new(),
            placeholder: String::new(),
            mask_char: '•',
            show_toggle: true,
            is_revealed: false,
            cursor_position: 0,
        }
    }

    /// Set the placeholder text.
    pub fn placeholder(self, text: &str) -> (r: Self)
        ensures
            r@ == (PasswordFieldView { placeholder: text@, ..self@ }),
    {
        PasswordField { placeholder: owned(text), ..self }
    }

    /// Set the mask character.
    pub fn mask_char(self, c: char) -> (r: Self)
        ensures
            r@ == (PasswordFieldView { mask_char: c, ..self@ }),
    {
        PasswordField { mask_char: c, ..self }
    }

    /// Enable or disable the show/hide toggle button.
    pub fn show_toggle(self, show: bool) -> (r: Self)
        ensures
            r@ == (PasswordFieldView { show_toggle: show, ..self@ }),
    {
        PasswordField { show_toggle: show, ..self }
    }

    /// Add a CSS class.
    pub fn class(self, class: &str) -> (r: Self)
        ensures
            r@ == (PasswordFieldView { base: BaseView { classes: added(self@.base.classes, class@), ..self@.base }, ..self@ }),
    {
        let mut c = self;
        c.base.classes.add(class);
        c
    }

    /// Set the element ID.
    pub fn id(self, id: &str) -> (r: Self)
        ensures
            r@ == (PasswordFieldView { base: BaseView { element_id: Some(id@), ..self@.base }, ..self@ }),
    {
        let mut c = self;
        c.base.element_id = Some(owned(id));
        c
    }

    /// The current value.
    pub fn value(&self) -> (r: &str)
        ensures
            r@ == self@.value,
    {
        self.value.as_str()
    }

    /// Whether the value is shown in clear.
    pub fn is_revealed(&self) -> (r: bool)
        ensures
            r == self@.is_revealed,
    {
        self.is_revealed
    }

    /// The cursor position, in characters.
    pub fn cursor_position(&self) -> (r: usize)
        ensures
            r == self@.cursor,
    {
        self.cursor_position
    }

    /// Replace the value; the cursor goes to its end.
    pub fn set_value(&mut self, value: &str)
        ensures
            final(self)@ == (PasswordFieldView { value: value@, cursor: value@.len(), ..old(self)@ }),
            password_wf(final(self)@),
    {
        self.value = owned(value);
        self.cursor_position = char_count(value);
    }

    /// Empty the field.
    pub fn clear(&mut self)
        ensures
            final(self)@ == (PasswordFieldView { value: Seq::<char>::empty(), cursor: 0, ..old(self)@ }),
            password_wf(final(self)@),
    {
        self.value = String::new();
        self.cursor_position = 0;
    }

    /// Show the value in clear, or mask it again.
    pub fn toggle_visibility(&mut self)
        ensures
            final(self)@ == (PasswordFieldView { is_revealed: !old(self)@.is_revealed, ..old(self)@ }),
    {
        self.is_revealed = !self.is_revealed;
    }

    /// The text the field shows: the value when revealed, else one mask
    /// character per character of the value.
    pub fn display_text(&self) -> (r: String)
        ensures
            r@ == shown_text(self@),
    {
        if self.is_revealed {
            return self.value.clone();
        }
        let n = char_count(self.value.as_str());
        let mut r = String::new();
        let mut i: usize = 0;
        while i < n
            invariant
                i <= n,
                r@ == repeated(self.mask_char, i as nat),
            decreases n - i,
        {
            push_char(&mut r, self.mask_char);
            i = i + 1;
            assert(r@ =~= repeated(self.mask_char, i as nat));
        }
        assert(r@ =~= repeated(self.mask_char, n as nat));
        r
    }

    /// Applies one key press (see `password_key_step`); returns whether it
    /// was consumed and what the owner is asked to do.
    pub fn handle_key_input(&mut self, key: Key, text: Option<&str>) -> (r: (bool, TextFieldAction))
        requires
            password_wf(old(self)@),
        ensures
            ({
                let step = password_key_step(old(self)@, key, match text { Some(t) => Some(t@), None => None });
                final(self)@ == step.0 && r == (step.1, step.2)
            }),
            password_wf(final(self)@),
    {
        let n = char_count(self.value.as_str());
        let c = self.cursor_position;
        if key == Key::Backspace && c > 0 {
            self.value = remove_at(self.value.as_str(), c - 1);
            self.cursor_position = c - 1;
            (true, TextFieldAction::Changed)
        } else if key == Key::Delete && c < n {
            self.value = remove_at(self.value.as_str(), c);
            (true, TextFieldAction::Changed)
        } else if key == Key::Left && c > 0 {
            self.cursor_position = c - 1;
            (true, TextFieldAction::Nothing)
        } else if key == Key::Right && c < n {
            self.cursor_position = c + 1;
            (true, TextFieldAction::Nothing)
        } else if key == Key::Home {
            self.cursor_position = 0;
            (true, TextFieldAction::Nothing)
        } else if key == Key::End {
            self.cursor_position = n;
            (true, TextFieldAction::Nothing)
        } else if key == Key::Enter {
            (true, TextFieldAction::Submit)
        } else {
            match text {
                Some(t) => {
                    let p = strip_control(t);
                    let k = char_count(p.as_str());
                    let nv = insert_at(self.value.as_str(), c, p.as_str());
                    let total = char_count(nv.as_str());
                    assert(total == c + k + (n - c));
                    self.value = nv;
                    self.cursor_position = c + k;
                    (true, TextFieldAction::Changed)
                },
                None => (false, TextFieldAction::Nothing),
            }
        }
    }

    /// Handles a key event: while the field has the focus, a key press is
    /// applied (see `password_key_step`) and, when consumed, handled with
    /// a redraw.
    pub fn handle_key(&mut self, ev: &KeyEvent, ctx: &mut EventContext) -> (r: (EventResult, TextFieldAction))
        requires
            password_wf(old(self)@),
        ensures
            password_wf(final(self)@),
            final(ctx).focus == old(ctx).focus,
            if old(self)@.base.state.focused && ev.kind == KeyEventKind::Down {
                let step = password_key_step(old(self)@, ev.key, match ev.text { Some(t) => Some(t@), None => None });
                &&& final(self)@ == step.0
                &&& r == (if step.1 { EventResult::Handled } else { EventResult::Ignored }, step.2)
                &&& final(ctx).should_redraw == (old(ctx).should_redraw || step.1)
            } else {
                &&& final(self)@ == old(self)@
                &&& r == (EventResult::Ignored, TextFieldAction::Nothing)
                &&& final(ctx).should_redraw == old(ctx).should_redraw
            },
    {
        if self.base.state.focused && ev.kind == KeyEventKind::Down {
            let text: Option<&str> = match &ev.text {
                Some(t) => Some(t.as_str()),
                None => None,
            };
            let (consumed, action) = self.handle_key_input(ev.key, text);
            if consumed {
                ctx.request_redraw();
                return (EventResult::Handled, action);
            }
            (EventResult::Ignored, action)
        } else {
            (EventResult::Ignored, TextFieldAction::Nothing)
        }
    }

    /// Handles a pointer event. Any press inside focuses the field, and
    /// flips the visibility when the toggle is shown and `on_toggle` says
    /// the press hit it; moves and leaves track the hover state.
    pub fn handle_pointer(&mut self, ev: PointerEvent, on_toggle: bool, ctx: &mut EventContext) -> (r: EventResult)
        ensures
            password_wf(old(self)@) ==> password_wf(final(self)@),
            ({
                let v = old(self)@;
                match ev.kind {
                    MouseEventKind::Enter | MouseEventKind::Move => {
                        let step = hover_step(v.base.state, ev.in_bounds);
                        &&& final(self)@ == with_state(v, step.state)
                        &&& r == EventResult::Ignored
                        &&& final(ctx).focus == old(ctx).focus
                        &&& final(ctx).should_redraw == (old(ctx).should_redraw || step.redraw)
                    },
                    MouseEventKind::Leave => {
                        let step = leave_step(v.base.state);
                        &&& final(self)@ == with_state(v, step.state)
                        &&& r == EventResult::Ignored
                        &&& final(ctx).focus == old(ctx).focus
                        &&& final(ctx).should_redraw == (old(ctx).should_redraw || step.redraw)
                    },
                    MouseEventKind::Down => if ev.in_bounds {
                        &&& final(self)@ == (PasswordFieldView {
                            is_revealed: if v.show_toggle && on_toggle { !v.is_revealed } else { v.is_revealed },
                            ..with_state(v, WidgetState { focused: true, ..v.base.state })
                        })
                        &&& r == EventResult::Handled
                        &&& final(ctx).focus == Some(v.base.id)
                        &&& final(ctx).should_redraw
                    } else {
                        &&& final(self)@ == v
                        &&& r == EventResult::Ignored
                        &&& final(ctx).focus == old(ctx).focus
                        &&& final(ctx).should_redraw == old(ctx).should_redraw
                    },
                    _ => {
                        &&& final(self)@ == v
                        &&& r == EventResult::Ignored
                        &&& final(ctx).focus == old(ctx).focus
                        &&& final(ctx).should_redraw == old(ctx).should_redraw
                    },
                }
            }),
    {
        match ev.kind {
            MouseEventKind::Enter | MouseEventKind::Move => {
                track_hover(&mut self.base, ev.in_bounds, ctx);
            },
            MouseEventKind::Leave => {
                track_leave(&mut self.base, ctx);
            },
            MouseEventKind::Down => {
                if ev.in_bounds {
                    self.base.state.focused = true;
                    ctx.request_focus(self.base.id);
                    ctx.request_redraw();
                    if self.show_toggle && on_toggle {
                        self.toggle_visibility();
                    }
                    return EventResult::Handled;
                }
            },
            _ => {},
        }
        EventResult::Ignored
    }
}

/// Toggling the visibility twice leaves the field as it was, and the shown
/// text of a revealed field is its value.
pub proof fn lemma_toggle_visibility_twice(v: PasswordFieldView)
    ensures
        (PasswordFieldView { is_revealed: !(PasswordFieldView { is_revealed: !v.is_revealed, ..v }).is_revealed, ..v }) == v,
        v.is_revealed ==> shown_text(v) == v.value,
        !v.is_revealed ==> shown_text(v).len() == v.value.len(),
        !v.is_revealed ==> forall|k: int| 0 <= k < v.value.len() ==> #[trigger] shown_text(v)[k] == v.mask_char,
{
}

/// Typing one printable character inserts it at the cursor, shows one mask
/// character more while the field is hidden, and is undone by Backspace.
pub proof fn lemma_password_type_then_backspace(v: PasswordFieldView, c: char)
    requires
        password_wf(v),
        !control(c),
    ensures
        ({
            let typed = password_key_step(v, Key::Other, Some(seq![c])).0;
            &&& typed.value == v.value.take(v.cursor as int).push(c) + v.value.skip(v.cursor as int)
            &&& typed.cursor == v.cursor + 1
            &&& !v.is_revealed ==> shown_text(typed).len() == shown_text(v).len() + 1
            &&& password_key_step(typed, Key::Backspace, None).0 == v
        }),
{
    let t = seq![c];
    assert(printable(t) =~= t) by {
        reveal(Seq::filter);
        assert(t.drop_last() =~= Seq::<char>::empty());
    }
    let typed = password_key_step(v, Key::Other, Some(t)).0;
    assert(typed.value =~= v.value.take(v.cursor as int).push(c) + v.value.skip(v.cursor as int));
    assert(removed(typed.value, v.cursor as int) =~= v.value);
}

impl Widget for PasswordField {
    fn id(&self) -> (r: WidgetId)
        ensures
            r == self@.base.id,
    {
        self.base.id
    }

    fn widget_type_name(&self) -> (r: &'static str)
        ensures
            r@ == "password-field"@,
    {
        "password-field"
    }

    fn element_id(&self) -> (r: Option<&str>)
        ensures
            match r {
                Some(s) => self@.base.element_id == Some(s@),
                None => self@.base.element_id is None,
            },
    {
        self.base.element_id_str()
    }

    fn classes(&self) -> (r: &ClassList)
        ensures
            r@ == self@.base.classes,
    {
        &self.base.classes
    }

    fn state(&self) -> (r: WidgetState)
        ensures
            r == self@.base.state,
    {
        self.base.state
    }
}

} // verus!
