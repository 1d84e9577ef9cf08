//! Dropdown select widget.
use vstd::prelude::*;

use super::{BaseView, EventContext, Widget, WidgetBase, WidgetId, WidgetIds, succ_id};
use crate::css::{added, cleared_state, ClassList, WidgetState};
use crate::event::{EventResult, Key, KeyEvent, KeyEventKind, MouseEventKind, PointerEvent};
use crate::text::{opt_view, owned, str_eq};

verus! {

/// An option in a dropdown.
#[derive(Debug)]
pub struct DropdownOption {
    pub value: String,
    pub label: String,
    pub icon: Option<String>,
    pub disabled: bool,
}

impl DropdownOption {
    /// An enabled option without an icon.
    pub fn new(value: &str, label: &str) -> (r: Self)
        ensures
            r.value@ == value@,
            r.label@ == label@,
            r.icon is None,
            !r.disabled,
    {
        DropdownOption { value: owned(value), label: owned(label), icon: None, disabled: false }
    }

    /// Set the icon.
    pub fn icon(self, icon: &str) -> (r: Self)
        ensures
            r.icon matches Some(i) && i@ == icon@,
            r == (DropdownOption { icon: r.icon, ..self }),
    {
        DropdownOption { icon: Some(owned(icon)), ..self }
    }

    /// Set whether the option can be chosen.
    pub fn disabled(self, disabled: bool) -> (r: Self)
        ensures
            r == (DropdownOption { disabled, ..self }),
    {
        DropdownOption { disabled, ..self }
    }
}

/// Abstract contents of a `Dropdown`.
pub struct DropdownView {
    pub base: BaseView,
    pub options: Seq<DropdownOption>,
    pub selected_value: Option<Seq<char>>,
    pub placeholder: Seq<char>,
    pub is_open: bool,
    pub hovered_index: Option<usize>,
}

/// A dropdown select widget.
pub struct Dropdown {
    base: WidgetBase,
    options: Vec<DropdownOption>,
    selected_value: Option<String>,
    placeholder: String,
    is_open: bool,
    hovered_index: Option<usize>,
}

impl View for Dropdown {
    type V = DropdownView;

    closed spec fn view(&self) -> DropdownView {
        DropdownView {
            base: self.base@,
            options: self.options@,
            selected_value: opt_view(&self.selected_value),
            placeholder: self.placeholder@,
            is_open: self.is_open,
            hovered_index: self.hovered_index,
        }
    }
}

/// The hovered row, when there is one, can be stepped past.
pub open spec fn dropdown_wf(v: DropdownView) -> bool {
    v.hovered_index matches Some(i) ==> i < usize::MAX
}

/// Some enabled option has the value `value`.
pub open spec fn has_enabled_value(opts: Seq<DropdownOption>, value: Seq<char>) -> bool {
    exists|k: int| 0 <= k < opts.len() && opts[k].value@ == value && !opts[k].disabled
}

/// The dropdown closed, with no row hovered.
pub open spec fn closed_view(v: DropdownView) -> DropdownView {
    DropdownView { is_open: false, hovered_index: None, ..v }
}

/// Selecting `value`: when an enabled option has it, it becomes the
/// selection and the dropdown closes; otherwise nothing changes.
pub open spec fn select_view(v: DropdownView, value: Seq<char>) -> DropdownView {
    if has_enabled_value(v.options, value) {
        DropdownView { selected_value: Some(value), ..closed_view(v) }
    } else {
        v
    }
}

/// The dropdown's response to a key press while it has the focus: the new
/// contents, whether the key was handled, and whether a redraw is asked.
pub open spec fn dropdown_key_step(v: DropdownView, key: Key) -> (DropdownView, bool, bool) {
    match key {
        Key::Enter | Key::Space => {
            let n = if v.is_open {
                match v.hovered_index {
                    Some(i) => if i < v.options.len() { select_view(v, v.options[i as int].value@) } else { v },
                    None => v,
                }
            } else {
                DropdownView { is_open: true, ..v }
            };
            (n, true, true)
        },
        Key::Escape => (closed_view(v), true, true),
        Key::Up => {
            let cur: usize = match v.hovered_index { Some(i) => i, None => 0 };
            if v.is_open && cur > 0 {
                (DropdownView { hovered_index: Some((cur - 1) as usize), ..v }, true, true)
            } else {
                (v, true, false)
            }
        },
        Key::Down => {
            let cur: usize = match v.hovered_index { Some(i) => i, None => 0 };
            if v.is_open {
                if cur + 1 < v.options.len() {
                    (DropdownView { hovered_index: Some((cur + 1) as usize), ..v }, true, true)
                } else {
                    (v, true, false)
                }
            } else {
                (DropdownView { is_open: true, hovered_index: Some(0), ..v }, true, true)
            }
        },
        _ => (v, false, false),
    }
}

impl Dropdown {
    /// Whether the hovered row can be stepped past (see `dropdown_wf`);
    /// the dropdown's own operations keep this so.
    pub fn well_formed(&self) -> (r: bool)
        ensures
            r == dropdown_wf(self@),
    {
        match self.hovered_index {
            Some(i) => i < usize::MAX,
            None => true,
        }
    }

    /// A closed dropdown with no options and the placeholder `Select...`.
    pub fn new(ids: &mut WidgetIds) -> (r: Self)
        ensures
            r@.base.id == old(ids)@,
            final(ids)@ == succ_id(old(ids)@),
            r@.base.classes == seq!["dropdown"@],
            r@.base.element_id is None,
            r@.base.state == cleared_state(),
            r@.options.len() == 0,
            r@.selected_value is None,
            r@.placeholder == "Select..."@,
            !r@.is_open,
            r@.hovered_index is None,
            dropdown_wf(r@),
    {
        Dropdown {
            base: WidgetBase::new(ids).with_class("dropdown"),
            options: Vec::new(),
            selected_value: None,
            placeholder: owned("Select..."),
            is_open: false,
            hovered_index: None,
        }
    }

    /// Replace the options.
    pub fn options(self, options: Vec<DropdownOption>) -> (r: Self)
        ensures
            r@ == (DropdownView { options: options@, ..self@ }),
    {
        Dropdown { options, ..self }
    }

    /// Append an option.
    pub fn option(self, option: DropdownOption) -> (r: Self)
        ensures
            r@ == (DropdownView { options: self@.options.push(option), ..self@ }),
    {
        let mut d = self;
        d.options.push(option);
        d
    }

    /// Set the placeholder text.
    pub fn placeholder(self, text: &str) -> (r: Self)
        ensures
            r@ == (DropdownView { placeholder: text@, ..self@ }),
    {
        Dropdown { placeholder: owned(text), ..self }
    }

    /// Set the selected value (whether or not an option has it).
    pub fn selected(self, value: &str) -> (r: Self)
        ensures
            r@ == (DropdownView { selected_value: Some(value@), ..self@ }),
    {
        Dropdown { selected_value: Some(owned(value)), ..self }
    }

    /// Add a CSS class.
    pub fn class(self, class: &str) -> (r: Self)
        ensures
            r@ == (DropdownView { base: BaseView { classes: added(self@.base.classes, class@), ..self@.base }, ..self@ }),
    {
        let mut d = self;
        d.base.classes.add(class);
        d
    }

    /// The selected value, if any.
    pub fn value(&self) -> (r: Option<&str>)
        ensures
            match r {
                Some(s) => self@.selected_value == Some(s@),
                None => self@.selected_value is None,
            },
    {
        match &self.selected_value {
            Some(s) => Some(s.as_str()),
            None => None,
        }
    }

    /// The first option whose value is the selected value, if any.
    pub fn selected_option(&self) -> (r: Option<&DropdownOption>)
        ensures
            match self@.selected_value {
                None => r is None,
                Some(v) => match r {
                    Some(o) => exists|k: int| {
                        &&& 0 <= k < self@.options.len()
                        &&& #[trigger] self@.options[k] == *o
                        &&& o.value@ == v
                        &&& forall|j: int| 0 <= j < k ==> self@.options[j].value@ != v
                    },
                    None => forall|j: int| 0 <= j < self@.options.len() ==> self@.options[j].value@ != v,
                },
            },
    {
        match &self.selected_value {
            None => None,
            Some(v) => {
                let mut i: usize = 0;
                while i < self.options.len()
                    invariant
                        i <= self.options@.len(),
                        self@.selected_value == Some(v@),
                        forall|j: int| 0 <= j < i ==> self.options@[j].value@ != v@,
                    decreases self.options.len() - i,
                {
                    if str_eq(self.options[i].value.as_str(), v.as_str()) {
                        let o = &self.options[i];
                        assert(self@.options[i as int] == *o);
                        assert(exists|k: int| {
                            &&& 0 <= k < self@.options.len()
                            &&& #[trigger] self@.options[k] == *o
                            &&& o.value@ == v@
                            &&& forall|j: int| 0 <= j < k ==> self@.options[j].value@ != v@
                        });
                        return Some(o);
                    }
                    i = i + 1;
                }
                None
            },
        }
    }

    /// Whether the menu is open.
    pub fn is_open(&self) -> (r: bool)
        ensures
            r == self@.is_open,
    {
        self.is_open
    }

    /// The hovered row of the menu, if any.
    pub fn hovered_index(&self) -> (r: Option<usize>)
        ensures
            r == self@.hovered_index,
    {
        self.hovered_index
    }

    /// Open the menu.
    pub fn open(&mut self)
        ensures
            final(self)@ == (DropdownView { is_open: true, ..old(self)@ }),
    {
        self.is_open = true;
    }

    /// Close the menu and clear the hovered row.
    pub fn close(&mut self)
        ensures
            final(self)@ == closed_view(old(self)@),
    {
        self.is_open = false;
        self.hovered_index = None;
    }

    /// Close the menu if open, open it if closed.
    pub fn toggle(&mut self)
        ensures
            final(self)@ == (if old(self)@.is_open { closed_view(old(self)@) } else { DropdownView { is_open: true, ..old(self)@ } }),
    {
        if self.is_open {
            self.close();
        } else {
            self.open();
        }
    }

    /// Select `value` when an enabled option has it (see `select_view`);
    /// returns the new selection for the change handler, or `None` when
    /// nothing changed.
    pub fn select(&mut self, value: &str) -> (r: Option<String>)
        ensures
            final(self)@ == select_view(old(self)@, value@),
            match r {
                Some(s) => s@ == value@ && has_enabled_value(old(self)@.options, value@),
                None => !has_enabled_value(old(self)@.options, value@),
            },
    {
        let mut i: usize = 0;
        while i < self.options.len()
            invariant
                i <= self.options@.len(),
                self@ == old(self)@,
                forall|j: int| 0 <= j < i ==> !(self.options@[j].value@ == value@ && !self.options@[j].disabled),
            decreases self.options.len() - i,
        {
            if str_eq(self.options[i].value.as_str(), value) && !self.options[i].disabled {
                let chosen = owned(self.options[i].value.as_str());
                assert(has_enabled_value(self@.options, value@));
                self.selected_value = Some(owned(chosen.as_str()));
                self.close();
                return Some(chosen);
            }
            i = i + 1;
        }
        None
    }

    /// Handles a key press while the dropdown has the focus: Enter or
    /// Space selects the hovered row (or opens the menu), Escape closes,
    /// Up and Down move the hovered row (Down opens a closed menu on the
    /// first row). Returns the event result and the new selection, if one
    /// was made.
    pub fn handle_key(&mut self, ev: &KeyEvent, ctx: &mut EventContext) -> (r: (EventResult, Option<String>))
        requires
            dropdown_wf(old(self)@),
        ensures
            dropdown_wf(final(self)@),
            final(ctx).focus == old(ctx).focus,
            if old(self)@.base.state.focused && ev.kind == KeyEventKind::Down {
                let (n, handled, redraw) = dropdown_key_step(old(self)@, ev.key);
                &&& final(self)@ == n
                &&& r.0 == (if handled { EventResult::Handled } else { EventResult::Ignored })
                &&& final(ctx).should_redraw == (old(ctx).should_redraw || redraw)
                &&& (r.1 is Some <==> ((ev.key == Key::Enter || ev.key == Key::Space)
                    && old(self)@.is_open
                    && (old(self)@.hovered_index matches Some(i)
                        && i < old(self)@.options.len()
                        && has_enabled_value(old(self)@.options, old(self)@.options[i as int].value@))))
                &&& (r.1 is Some ==> r.1->0@ == old(self)@.options[old(self)@.hovered_index->0 as int].value@
                    && final(self)@.selected_value == Some(r.1->0@))
            } else {
                &&& final(self)@ == old(self)@
                &&& r == (EventResult::Ignored, None::<String>)
                &&& final(ctx).should_redraw == old(ctx).should_redraw
            },
    {
        if !(self.base.state.focused && ev.kind == KeyEventKind::Down) {
            return (EventResult::Ignored, None);
        }
        match ev.key {
            Key::Enter | Key::Space => {
                let mut chosen: Option<String> = None;
                if self.is_open {
                    match self.hovered_index {
                        Some(idx) => {
                            if idx < self.options.len() {
                                let value = owned(self.options[idx].value.as_str());
                                chosen = self.select(value.as_str());
                            }
                        },
                        None => {},
                    }
                } else {
                    self.open();
                }
                ctx.request_redraw();
                (EventResult::Handled, chosen)
            },
            Key::Escape => {
                self.close();
                ctx.request_redraw();
                (EventResult::Handled, None)
            },
            Key::Up => {
                if self.is_open {
                    let current = match self.hovered_index {
                        Some(i) => i,
                        None => 0,
                    };
                    if current > 0 {
                        self.hovered_index = Some(current - 1);
                        ctx.request_redraw();
                    }
                }
                (EventResult::Handled, None)
            },
            Key::Down => {
                if self.is_open {
                    let current = match self.hovered_index {
                        Some(i) => i,
                        None => 0,
                    };
                    if current + 1 < self.options.len() {
                        self.hovered_index = Some(current + 1);
                        ctx.request_redraw();
                    }
                } else {
                    self.open();
                    self.hovered_index = Some(0);
                    ctx.request_redraw();
                }
                (EventResult::Handled, None)
            },
            _ => (EventResult::Ignored, None),
        }
    }
    /// Handles a pointer event. `in_button` says whether the pointer lies
    /// on the dropdown itself, `in_menu` whether it lies in the open menu,
    /// and `row` which menu row it is over. Moves track the hover of the
    /// dropdown and of the menu rows; a leave clears both; a press on the
    /// dropdown presses it and takes the focus (so keys reach it), and releasing it there
    /// opens or closes the menu; a release on an enabled menu row selects
    /// it; a release elsewhere closes an open menu. Returns the event result
    /// and the new selection, if one was made.
    pub fn handle_pointer(&mut self, ev: PointerEvent, in_button: bool, in_menu: bool, row: usize, ctx: &mut EventContext) -> (r: (EventResult, Option<String>))
        ensures
            ({
                let v = old(self)@;
                let menu = v.is_open && in_menu;
                let s = v.base.state;
                match ev.kind {
                    MouseEventKind::Move | MouseEventKind::Enter => {
                        let hov = if in_button && !s.hovered { true } else if !in_button && !menu && s.hovered { false } else { s.hovered };
                        let v1 = DropdownView { base: BaseView { state: WidgetState { hovered: hov, ..s }, ..v.base }, ..v };
                        let row_hit = menu && row < v.options.len();
                        let hi = if menu {
                            if row_hit { Some(row) } else { v.hovered_index }
                        } else {
                            None
                        };
                        &&& final(self)@ == (DropdownView { hovered_index: hi, ..v1 })
                        &&& r.0 == EventResult::Ignored && r.1 is None
                        &&& final(ctx).focus == old(ctx).focus
                        &&& final(ctx).should_redraw == (old(ctx).should_redraw || hov != s.hovered || hi != v.hovered_index)
                    },
                    MouseEventKind::Leave => {
                        &&& final(self)@ == (DropdownView {
                            base: BaseView { state: WidgetState { hovered: false, ..s }, ..v.base },
                            hovered_index: None,
                            ..v
                        })
                        &&& r.0 == EventResult::Ignored && r.1 is None
                        &&& final(ctx).focus == old(ctx).focus
                        &&& final(ctx).should_redraw
                    },
                    MouseEventKind::Down if in_button => {
                        &&& final(self)@ == (DropdownView { base: BaseView { state: WidgetState { pressed: true, focused: true, ..s }, ..v.base }, ..v })
                        &&& r.0 == EventResult::Handled && r.1 is None
                        &&& final(ctx).focus == Some(v.base.id)
                        &&& final(ctx).should_redraw
                    },
                    MouseEventKind::Up if s.pressed && in_button => {
                        let v1 = DropdownView { base: BaseView { state: WidgetState { pressed: false, ..s }, ..v.base }, ..v };
                        &&& final(self)@ == (if v.is_open { closed_view(v1) } else { DropdownView { is_open: true, ..v1 } })
                        &&& r.0 == EventResult::Handled && r.1 is None
                        &&& final(ctx).focus == old(ctx).focus
                        &&& final(ctx).should_redraw
                    },
                    MouseEventKind::Up if menu => if row < v.options.len() && !v.options[row as int].disabled {
                        let value = v.options[row as int].value@;
                        &&& final(self)@ == select_view(v, value)
                        &&& r.0 == EventResult::Handled
                        &&& r.1 matches Some(t) && t@ == value
                        &&& final(ctx).focus == old(ctx).focus
                        &&& final(ctx).should_redraw
                    } else {
                        &&& final(self)@ == v
                        &&& r.0 == EventResult::Ignored && r.1 is None
                        &&& final(ctx).focus == old(ctx).focus
                        &&& final(ctx).should_redraw == old(ctx).should_redraw
                    },
                    MouseEventKind::Up if v.is_open => {
                        &&& final(self)@ == closed_view(v)
                        &&& r.0 == EventResult::Ignored && r.1 is None
                        &&& final(ctx).focus == old(ctx).focus
                        &&& final(ctx).should_redraw
                    },
                    _ => {
                        &&& final(self)@ == v
                        &&& r.0 == EventResult::Ignored && r.1 is None
                        &&& final(ctx).focus == old(ctx).focus
                        &&& final(ctx).should_redraw == old(ctx).should_redraw
                    },
                }
            }),
    {
        let menu = self.is_open && in_menu;
        match ev.kind {
            MouseEventKind::Move | MouseEventKind::Enter => {
                if in_button && !self.base.state.hovered {
                    self.base.state.hovered = true;
                    ctx.request_redraw();
                } else if !in_button && !menu && self.base.state.hovered {
                    self.base.state.hovered = false;
                    ctx.request_redraw();
                }
                if menu {
                    if row < self.options.len() && self.hovered_index != Some(row) {
                        self.hovered_index = Some(row);
                        ctx.request_redraw();
                    }
                } else if self.hovered_index.is_some() {
                    self.hovered_index = None;
                    ctx.request_redraw();
                }
                (EventResult::Ignored, None)
            },
            MouseEventKind::Leave => {
                self.base.state.hovered = false;
                self.hovered_index = None;
                ctx.request_redraw();
                (EventResult::Ignored, None)
            },
            MouseEventKind::Down => {
                if in_button {
                    self.base.state.pressed = true;
                    self.base.state.focused = true;
                    ctx.request_focus(self.base.id);
                    ctx.request_redraw();
                    return (EventResult::Handled, None);
                }
                (EventResult::Ignored, None)
            },
            MouseEventKind::Up => {
                if self.base.state.pressed && in_button {
                    self.base.state.pressed = false;
                    self.toggle();
                    ctx.request_redraw();
                    return (EventResult::Handled, None);
                } else if menu {
                    if row < self.options.len() && !self.options[row].disabled {
                        let value = owned(self.options[row].value.as_str());
                        assert(has_enabled_value(self@.options, value@));
                        let chosen = self.select(value.as_str());
                        ctx.request_redraw();
                        return (EventResult::Handled, chosen);
                    }
                } else if self.is_open {
                    self.close();
                    ctx.request_redraw();
                }
                (EventResult::Ignored, None)
            },
            _ => (EventResult::Ignored, None),
        }
    }
}

/// Opening and closing: toggling twice from a closed dropdown leaves it
/// closed with the same selection and options.
pub proof fn lemma_toggle_twice_closed(v: DropdownView)
    requires
        !v.is_open,
    ensures
        ({
            let once = DropdownView { is_open: true, ..v };
            let twice = closed_view(once);
            &&& twice.is_open == v.is_open
            &&& twice.selected_value == v.selected_value
            &&& twice.options == v.options
        }),
{
}

/// Selecting a value an enabled option holds makes it the selection and
/// closes the menu; selecting again changes nothing further.
pub proof fn lemma_select_idempotent(v: DropdownView, value: Seq<char>)
    ensures
        select_view(select_view(v, value), value) == select_view(v, value),
        has_enabled_value(v.options, value) ==> select_view(v, value).selected_value == Some(value)
            && !select_view(v, value).is_open,
{
}

/// In an open dropdown whose hovered row is `i`: Down then Up comes back
/// to row `i` when a row follows it; Enter on an enabled option makes its
/// value the selection and closes the dropdown; Escape closes it and keeps
/// the selection.
pub proof fn lemma_dropdown_keys(v: DropdownView, i: usize)
    requires
        dropdown_wf(v),
        v.is_open,
        v.hovered_index == Some(i),
    ensures
        i + 1 < v.options.len() ==> dropdown_key_step(v, Key::Down).0.hovered_index == Some((i + 1) as usize)
            && dropdown_key_step(dropdown_key_step(v, Key::Down).0, Key::Up).0 == v,
        i < v.options.len() && !v.options[i as int].disabled ==> ({
            let e = dropdown_key_step(v, Key::Enter).0;
            &&& e.selected_value == Some(v.options[i as int].value@)
            &&& !e.is_open
            &&& e.options == v.options
        }),
        !dropdown_key_step(v, Key::Escape).0.is_open,
        dropdown_key_step(v, Key::Escape).0.selected_value == v.selected_value,
{
    if i + 1 < v.options.len() {
        let d = dropdown_key_step(v, Key::Down).0;
        assert(d.hovered_index == Some((i + 1) as usize));
        assert(dropdown_key_step(d, Key::Up).0 == v);
    }
    if i < v.options.len() && !v.options[i as int].disabled {
        assert(has_enabled_value(v.options, v.options[i as int].value@));
    }
}

impl Widget for Dropdown {
    fn id(&self) -> (r: WidgetId)
        ensures
            r == self@.base.id,
    {
        self.base.id
    }

    fn widget_type_name(&self) -> (r: &'static str)
        ensures
            r@ == "dropdown"@,
    {
        "dropdown"
    }

    fn element_id(&self) -> (r: Option<&str>)
        ensures
            match r {
                Some(s) => self@.base.element_id == Some(s@),
                None => self@.base.element_id is None,
            },
    {
        self.base.element_id_str()
    }

    fn classes(&self) -> (r: &ClassList)
        ensures
            r@ == self@.base.classes,
    {
        &self.base.classes
    }

    fn state(&self) -> (r: WidgetState)
        ensures
            r == self@.base.state,
    {
        self.base.state
    }
}

} // verus!
