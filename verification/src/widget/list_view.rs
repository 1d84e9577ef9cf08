//! List view widget: items with selection, hover and keyboard navigation.
use vstd::prelude::*;

use std::time::Instant;

use super::desktop::DOUBLE_CLICK_MILLIS;
use super::pointer::{no_click, second_click, ClickMemory, ClickMemoryView};
use super::{BaseView, EventContext, Widget, WidgetBase, WidgetId, WidgetIds, succ_id};
use crate::css::{added, cleared_state, ClassList, WidgetState};
use crate::event::{is_left, left_button, EventResult, Key, KeyEvent, KeyEventKind, MouseButton, MouseEventKind, PointerEvent};
use crate::text::{opt_view, owned, str_eq};
use crate::time::instant_now;

verus! {

/// Abstract contents of a `ListItem`.
pub struct ListItemView {
    pub id: Seq<char>,
    pub text: Seq<char>,
    pub subtitle: Option<Seq<char>>,
    pub icon: Option<Seq<char>>,
    pub selected: bool,
    pub disabled: bool,
}

/// A list item.
#[derive(Debug, Clone)]
pub struct ListItem {
    /// Unique identifier.
    pub id: String,
    /// Primary text.
    pub text: String,
    /// Secondary text.
    pub subtitle: Option<String>,
    /// Icon.
    pub icon: Option<String>,
    /// Whether this item is selected.
    pub selected: bool,
    /// Whether this item is disabled.
    pub disabled: bool,
}

impl View for ListItem {
    type V = ListItemView;

    open spec fn view(&self) -> ListItemView {
        ListItemView {
            id: self.id@,
            text: self.text@,
            subtitle: opt_view(&self.subtitle),
            icon: opt_view(&self.icon),
            selected: self.selected,
            disabled: self.disabled,
        }
    }
}

impl ListItem {
    /// An enabled, unselected item without subtitle or icon.
    pub fn new(id: &str, text: &str) -> (r: Self)
        ensures
            r@ == (ListItemView { id: id@, text: text@, subtitle: None, icon: None, selected: false, disabled: false }),
    {
        ListItem { id: owned(id), text: owned(text), subtitle: None, icon: None, selected: false, disabled: false }
    }

    /// Set the subtitle.
    pub fn subtitle(self, subtitle: &str) -> (r: Self)
        ensures
            r@ == (ListItemView { subtitle: Some(subtitle@), ..self@ }),
    {
        ListItem { subtitle: Some(owned(subtitle)), ..self }
    }

    /// Set the icon.
    pub fn icon(self, icon: &str) -> (r: Self)
        ensures
            r@ == (ListItemView { icon: Some(icon@), ..self@ }),
    {
        ListItem { icon: Some(owned(icon)), ..self }
    }

    /// Set the disabled state.
    pub fn disabled(self, disabled: bool) -> (r: Self)
        ensures
            r@ == (ListItemView { disabled, ..self@ }),
    {
        ListItem { disabled, ..self }
    }
}

/// How many items the list lets the user select.
#[derive(Debug, Clone, Copy, PartialEq, Eq, Structural)]
pub enum SelectionMode {
    NoSelection,
    Single,
    Multiple,
}

impl Default for SelectionMode {
    fn default() -> (r: Self)
        ensures
            r == SelectionMode::Single,
    {
        SelectionMode::Single
    }
}

/// What the owner of a list is asked to do: tell the select handler or the
/// activate handler of an item id.
#[derive(Debug)]
pub enum ListAction {
    Nothing,
    Select(String),
    Activate(String),
}

/// The views of a sequence of items.
pub open spec fn items_view(s: Seq<ListItem>) -> Seq<ListItemView> {
    s.map_values(|it: ListItem| it@)
}

/// `i` is the first position of `s` whose item has the id `id`.
pub open spec fn first_id_at(s: Seq<ListItemView>, id: Seq<char>, i: int) -> bool {
    0 <= i < s.len() && s[i].id == id && forall|j: int| 0 <= j < i ==> s[j].id != id
}

/// The first position of `s` whose item has the id `id`, if any.
pub open spec fn first_with_id(s: Seq<ListItemView>, id: Seq<char>) -> Option<int> {
    if exists|i: int| first_id_at(s, id, i) {
        Some(choose|i: int| first_id_at(s, id, i))
    } else {
        None
    }
}

/// `i` is the first selected position of `s`.
pub open spec fn first_selected_at(s: Seq<ListItemView>, i: int) -> bool {
    0 <= i < s.len() && s[i].selected && forall|j: int| 0 <= j < i ==> !s[j].selected
}

/// The first selected position of `s`, if any.
pub open spec fn first_selected(s: Seq<ListItemView>) -> Option<int> {
    if exists|i: int| first_selected_at(s, i) {
        Some(choose|i: int| first_selected_at(s, i))
    } else {
        None
    }
}

/// The first position with an id is unique.
pub proof fn lemma_first_id_unique(s: Seq<ListItemView>, id: Seq<char>, i: int)
    requires
        first_id_at(s, id, i),
    ensures
        first_with_id(s, id) == Some(i),
{
    let c = choose|k: int| first_id_at(s, id, k);
    assert(first_id_at(s, id, c));
    if c < i {
        assert(s[c].id != id);
    } else if i < c {
        assert(s[i].id != id);
    }
}

/// The first selected position is unique.
pub proof fn lemma_first_selected_unique(s: Seq<ListItemView>, i: int)
    requires
        first_selected_at(s, i),
    ensures
        first_selected(s) == Some(i),
{
    let c = choose|k: int| first_selected_at(s, k);
    assert(first_selected_at(s, c));
    if c < i {
        assert(!s[c].selected);
    } else if i < c {
        assert(!s[i].selected);
    }
}

/// Every item of `s` unselected.
pub open spec fn cleared(s: Seq<ListItemView>) -> Seq<ListItemView> {
    s.map_values(|it: ListItemView| ListItemView { selected: false, ..it })
}

/// The item with its selected flag set to `b`.
pub open spec fn with_selected(it: ListItemView, b: bool) -> ListItemView {
    ListItemView { selected: b, ..it }
}

/// Selecting the item with id `id`: nothing under `None`; under `Single`
/// every other selection is cleared first; the first item with that id is
/// then selected unless disabled. The flag says whether it was (and the
/// select handler is to be told).
pub open spec fn select_step(s: Seq<ListItemView>, mode: SelectionMode, id: Seq<char>) -> (Seq<ListItemView>, bool) {
    if mode == SelectionMode::NoSelection {
        (s, false)
    } else {
        let b = if mode == SelectionMode::Single { cleared(s) } else { s };
        match first_with_id(s, id) {
            Some(i) => if !s[i].disabled { (b.update(i, with_selected(b[i], true)), true) } else { (b, false) },
            None => (b, false),
        }
    }
}

/// Toggling the item with id `id`: only under `Multiple`, and only when
/// the first item with that id is enabled.
pub open spec fn toggle_step(s: Seq<ListItemView>, mode: SelectionMode, id: Seq<char>) -> (Seq<ListItemView>, bool) {
    if mode != SelectionMode::Multiple {
        (s, false)
    } else {
        match first_with_id(s, id) {
            Some(i) => if !s[i].disabled { (s.update(i, with_selected(s[i], !s[i].selected)), true) } else { (s, false) },
            None => (s, false),
        }
    }
}

/// The ids of the selected items, in order.
pub open spec fn selected_ids(s: Seq<ListItemView>) -> Seq<Seq<char>> {
    s.filter(|it: ListItemView| it.selected).map_values(|it: ListItemView| it.id)
}

/// The item under the pointer: the reported row when the list has it.
pub open spec fn hit_item(row: Option<usize>, len: nat) -> Option<usize> {
    match row {
        Some(i) => if i < len { Some(i) } else { None },
        None => None,
    }
}

/// Abstract contents of a `ListView`.
pub struct ListViewView {
    pub base: BaseView,
    pub items: Seq<ListItemView>,
    pub selection_mode: SelectionMode,
    pub hovered_index: Option<usize>,
    pub last_click: ClickMemoryView,
}

/// A list of items with selection.
#[derive(Debug)]
pub struct ListView {
    base: WidgetBase,
    items: Vec<ListItem>,
    selection_mode: SelectionMode,
    hovered_index: Option<usize>,
    clicks: ClickMemory,
}

impl View for ListView {
    type V = ListViewView;

    closed spec fn view(&self) -> ListViewView {
        ListViewView {
            base: self.base@,
            items: items_view(self.items@),
            selection_mode: self.selection_mode,
            hovered_index: self.hovered_index,
            last_click: self.clicks@,
        }
    }
}

/// The list with its focused flag set.
pub open spec fn list_focused(v: ListViewView) -> ListViewView {
    ListViewView { base: BaseView { state: WidgetState { focused: true, ..v.base.state }, ..v.base }, ..v }
}

/// One pointer event on the list, at clock reading `now` and `elapsed`
/// milliseconds after the remembered click: `w` is the list after it,
/// `res` and `a` the result and action, `f0`/`f1` and `d0`/`d1` the focus
/// and redraw request before and after. A move tracks the hovered item and
/// a leave drops it. A left press on an item takes the focus; when it is
/// the second press of a double-click on that item it activates the item
/// (and the remembered click is forgotten), otherwise it toggles the item
/// (under `Multiple`) or selects it and is remembered.
pub open spec fn list_pointer_outcome(
    v: ListViewView,
    ev: PointerEvent,
    row: Option<usize>,
    now: Instant,
    elapsed: Option<u128>,
    w: ListViewView,
    res: EventResult,
    a: ListAction,
    f0: Option<WidgetId>,
    f1: Option<WidgetId>,
    d0: bool,
    d1: bool,
) -> bool {
    let hit = hit_item(row, v.items.len());
    match ev.kind {
        MouseEventKind::Move => {
            &&& w == (ListViewView { hovered_index: hit, ..v })
            &&& res == EventResult::Ignored && a is Nothing
            &&& f1 == f0
            &&& d1 == (d0 || hit != v.hovered_index)
        },
        MouseEventKind::Leave => {
            &&& w == (ListViewView { hovered_index: None, ..v })
            &&& res == EventResult::Ignored && a is Nothing
            &&& f1 == f0
            &&& d1 == (d0 || v.hovered_index is Some)
        },
        MouseEventKind::Down if is_left(ev.button) && hit is Some => {
            let id = v.items[hit->0 as int].id;
            &&& res == EventResult::Handled
            &&& f1 == Some(v.base.id)
            &&& d1
            &&& if second_click(v.last_click, id, elapsed) {
                &&& w == (ListViewView { last_click: no_click(), ..list_focused(v) })
                &&& a matches ListAction::Activate(s) && s@ == id
            } else {
                let step = if v.selection_mode == SelectionMode::Multiple {
                    toggle_step(v.items, v.selection_mode, id)
                } else {
                    select_step(v.items, v.selection_mode, id)
                };
                &&& w == (ListViewView {
                    items: step.0,
                    last_click: ClickMemoryView { time: Some(now), id: Some(id) },
                    ..list_focused(v)
                })
                &&& (if step.1 { a matches ListAction::Select(s) && s@ == id } else { a is Nothing })
            }
        },
        _ => {
            &&& w == v
            &&& res == EventResult::Ignored && a is Nothing
            &&& f1 == f0
            &&& d1 == d0
        },
    }
}

/// Finds the first item with the id `id`.
fn find_id(items: &Vec<ListItem>, id: &str) -> (r: Option<usize>)
    ensures
        match r {
            Some(i) => first_with_id(items_view(items@), id@) == Some(i as int),
            None => first_with_id(items_view(items@), id@) is None,
        },
{
    let ghost s = items_view(items@);
    let mut i: usize = 0;
    while i < items.len()
        invariant
            i <= items.len(),
            s == items_view(items@),
            forall|j: int| 0 <= j < i ==> s[j].id != id@,
        decreases items.len() - i,
    {
        if str_eq(items[i].id.as_str(), id) {
            proof {
                lemma_first_id_unique(s, id@, i as int);
            }
            return Some(i);
        }
        i = i + 1;
    }
    assert(!exists|k: int| first_id_at(s, id@, k));
    None
}

/// Finds the first selected item.
fn find_selected(items: &Vec<ListItem>) -> (r: Option<usize>)
    ensures
        match r {
            Some(i) => first_selected(items_view(items@)) == Some(i as int),
            None => first_selected(items_view(items@)) is None,
        },
{
    let ghost s = items_view(items@);
    let mut i: usize = 0;
    while i < items.len()
        invariant
            i <= items.len(),
            s == items_view(items@),
            forall|j: int| 0 <= j < i ==> !s[j].selected,
        decreases items.len() - i,
    {
        if items[i].selected {
            proof {
                lemma_first_selected_unique(s, i as int);
            }
            return Some(i);
        }
        i = i + 1;
    }
    assert(!exists|k: int| first_selected_at(s, k));
    None
}

/// Sets the selected flag of the item at `i`.
fn set_selected(items: &mut Vec<ListItem>, i: usize, b: bool)
    requires
        i < old(items).len(),
    ensures
        final(items)@.len() == old(items)@.len(),
        items_view(final(items)@) == items_view(old(items)@).update(i as int, with_selected(items_view(old(items)@)[i as int], b)),
{
    let mut it = items.remove(i);
    it.selected = b;
    items.insert(i, it);
    assert(items_view(items@) =~= items_view(old(items)@).update(i as int, with_selected(items_view(old(items)@)[i as int], b)));
}

/// Clears every selected flag.
fn clear_all(items: &mut Vec<ListItem>)
    ensures
        final(items)@.len() == old(items)@.len(),
        items_view(final(items)@) == cleared(items_view(old(items)@)),
{
    let mut i: usize = 0;
    while i < items.len()
        invariant
            i <= items.len(),
            items.len() == old(items).len(),
            forall|j: int| 0 <= j < i ==> items_view(items@)[j] == with_selected(items_view(old(items)@)[j], false),
            forall|j: int| i <= j < items.len() ==> items_view(items@)[j] == items_view(old(items)@)[j],
        decreases items.len() - i,
    {
        set_selected(items, i, false);
        i = i + 1;
    }
    assert(items_view(items@) =~= cleared(items_view(old(items)@)));
}

impl ListView {
    /// An empty list with single selection.
    pub fn new(ids: &mut WidgetIds) -> (r: Self)
        ensures
            r@.base.id == old(ids)@,
            final(ids)@ == succ_id(old(ids)@),
            r@.base.classes == seq!["list-view"@],
            r@.base.element_id is None,
            r@.base.state == cleared_state(),
            r@.items == Seq::<ListItemView>::empty(),
            r@.selection_mode == SelectionMode::Single,
            r@.hovered_index is None,
            r@.last_click == no_click(),
    {
        ListView {
            base: WidgetBase::new(ids).with_class("list-view"),
            items: Vec::new(),
            selection_mode: SelectionMode::Single,
            hovered_index: None,
            clicks: ClickMemory::new(),
        }
    }

    /// Set the items.
    pub fn items(self, items: Vec<ListItem>) -> (r: Self)
        ensures
            r@ == (ListViewView { items: items_view(items@), ..self@ }),
    {
        ListView { items, ..self }
    }

    /// Add an item.
    pub fn item(self, item: ListItem) -> (r: Self)
        ensures
            r@ == (ListViewView { items: self@.items.push(item@), ..self@ }),
    {
        let mut l = self;
        l.items.push(item);
        assert(items_view(l.items@) =~= self@.items.push(item@));
        l
    }

    /// Set the selection mode.
    pub fn selection_mode(self, mode: SelectionMode) -> (r: Self)
        ensures
            r@ == (ListViewView { selection_mode: mode, ..self@ }),
    {
        ListView { selection_mode: mode, ..self }
    }

    /// Add a CSS class.
    pub fn class(self, class: &str) -> (r: Self)
        ensures
            r@ == (ListViewView { base: BaseView { classes: added(self@.base.classes, class@), ..self@.base }, ..self@ }),
    {
        let mut l = self;
        l.base.classes.add(class);
        l
    }

    /// The items.
    pub fn get_items(&self) -> (r: &Vec<ListItem>)
        ensures
            items_view(r@) == self@.items,
    {
        &self.items
    }

    /// The ids of the selected items, in order.
    pub fn selected_items(&self) -> (r: Vec<&str>)
        ensures
            r@.map_values(|s: &str| s@) == selected_ids(self@.items),
    {
        let ghost s = self@.items;
        let ghost pred = |it: ListItemView| it.selected;
        let mut r: Vec<&str> = Vec::new();
        let mut i: usize = 0;
        while i < self.items.len()
            invariant
                i <= self.items.len(),
                s == items_view(self.items@),
                pred == (|it: ListItemView| it.selected),
                r@.map_values(|x: &str| x@) == s.take(i as int).filter(pred).map_values(|it: ListItemView| it.id),
            decreases self.items.len() - i,
        {
            proof {
                reveal_with_fuel(Seq::filter, 1);
                assert(s.take(i + 1).drop_last() =~= s.take(i as int));
                assert(s.take(i + 1).last() == s[i as int]);
            }
            let ghost before = r@;
            if self.items[i].selected {
                r.push(self.items[i].id.as_str());
                assert(r@.map_values(|x: &str| x@) =~= before.map_values(|x: &str| x@).push(s[i as int].id));
                assert(s.take(i + 1).filter(pred).map_values(|it: ListItemView| it.id)
                    =~= s.take(i as int).filter(pred).map_values(|it: ListItemView| it.id).push(s[i as int].id));
            }
            i = i + 1;
        }
        assert(s.take(self.items.len() as int) =~= s);
        r
    }

    /// Select the item with id `id` (see `select_step`); returns whether it
    /// was selected (and the select handler is to be told).
    pub fn select(&mut self, id: &str) -> (r: bool)
        ensures
            final(self)@ == (ListViewView { items: select_step(old(self)@.items, old(self)@.selection_mode, id@).0, ..old(self)@ }),
            r == select_step(old(self)@.items, old(self)@.selection_mode, id@).1,
    {
        if self.selection_mode == SelectionMode::NoSelection {
            return false;
        }
        let found = find_id(&self.items, id);
        if self.selection_mode == SelectionMode::Single {
            clear_all(&mut self.items);
        }
        match found {
            Some(i) => {
                if !self.items[i].disabled {
                    set_selected(&mut self.items, i, true);
                    true
                } else {
                    false
                }
            },
            None => false,
        }
    }

    /// Flip the selection of the item with id `id` (see `toggle_step`);
    /// returns whether it flipped (and the select handler is to be told).
    pub fn toggle_selection(&mut self, id: &str) -> (r: bool)
        ensures
            final(self)@ == (ListViewView { items: toggle_step(old(self)@.items, old(self)@.selection_mode, id@).0, ..old(self)@ }),
            r == toggle_step(old(self)@.items, old(self)@.selection_mode, id@).1,
    {
        if self.selection_mode != SelectionMode::Multiple {
            return false;
        }
        match find_id(&self.items, id) {
            Some(i) => {
                if !self.items[i].disabled {
                    let b = !self.items[i].selected;
                    set_selected(&mut self.items, i, b);
                    true
                } else {
                    false
                }
            },
            None => false,
        }
    }

    /// Clear all selections.
    pub fn clear_selection(&mut self)
        ensures
            final(self)@ == (ListViewView { items: cleared(old(self)@.items), ..old(self)@ }),
    {
        clear_all(&mut self.items);
    }

    /// The index of the item under the pointer, if any.
    pub fn hovered_index(&self) -> (r: Option<usize>)
        ensures
            r == self@.hovered_index,
    {
        self.hovered_index
    }

    /// Handles a pointer event at clock reading `now`, `elapsed`
    /// milliseconds after the remembered click; `row` is the row under the
    /// pointer when it lies inside the list (see `list_pointer_outcome`).
    pub fn pointer_step(&mut self, ev: PointerEvent, row: Option<usize>, now: Instant, elapsed: Option<u128>, ctx: &mut EventContext)
        -> (r: (EventResult, ListAction))
        ensures
            list_pointer_outcome(old(self)@, ev, row, now, elapsed, final(self)@, r.0, r.1,
                old(ctx).focus, final(ctx).focus, old(ctx).should_redraw, final(ctx).should_redraw),
    {
        let hit: Option<usize> = match row {
            Some(i) => if i < self.items.len() { Some(i) } else { None },
            None => None,
        };
        match ev.kind {
            MouseEventKind::Move => {
                if hit != self.hovered_index {
                    self.hovered_index = hit;
                    ctx.request_redraw();
                }
                (EventResult::Ignored, ListAction::Nothing)
            },
            MouseEventKind::Leave => {
                if self.hovered_index.is_some() {
                    self.hovered_index = None;
                    ctx.request_redraw();
                }
                (EventResult::Ignored, ListAction::Nothing)
            },
            MouseEventKind::Down => {
                if left_button(ev.button) {
                    if let Some(i) = hit {
                        let id = self.items[i].id.clone();
                        assert(id@ == old(self)@.items[i as int].id);
                        self.base.state.focused = true;
                        ctx.request_focus(self.base.id);
                        ctx.request_redraw();
                        if self.clicks.is_second_click(id.as_str(), elapsed) {
                            self.clicks.forget();
                            return (EventResult::Handled, ListAction::Activate(id));
                        }
                        let notify = if self.selection_mode == SelectionMode::Multiple {
                            self.toggle_selection(id.as_str())
                        } else {
                            self.select(id.as_str())
                        };
                        self.clicks.remember(now, id.as_str());
                        if notify {
                            return (EventResult::Handled, ListAction::Select(id));
                        }
                        return (EventResult::Handled, ListAction::Nothing);
                    }
                }
                (EventResult::Ignored, ListAction::Nothing)
            },
            _ => (EventResult::Ignored, ListAction::Nothing),
        }
    }

    /// Handles a pointer event, reading the monotonic clock; `row` is the
    /// row under the pointer when it lies inside the list. The outcome is
    /// that of `pointer_step` for some clock reading and the time measured
    /// since the remembered click (taken exactly when a click is remembered).
    pub fn handle_pointer(&mut self, ev: PointerEvent, row: Option<usize>, ctx: &mut EventContext) -> (r: (EventResult, ListAction))
        ensures
            exists|now: Instant, elapsed: Option<u128>| {
                &&& (old(self)@.last_click.time is None <==> elapsed is None)
                &&& #[trigger] list_pointer_outcome(old(self)@, ev, row, now, elapsed, final(self)@, r.0, r.1,
                    old(ctx).focus, final(ctx).focus, old(ctx).should_redraw, final(ctx).should_redraw)
            },
    {
        let now = instant_now();
        let elapsed = self.clicks.elapsed(&now);
        self.pointer_step(ev, row, now, elapsed, ctx)
    }

    /// Handles a key event while the list has the focus: Enter activates
    /// the first selected item, Up and Down select the item before or after
    /// it (Down selects the first item when none is selected).
    pub fn handle_key(&mut self, ev: &KeyEvent, ctx: &mut EventContext) -> (r: (EventResult, ListAction))
        ensures
            final(ctx).focus == old(ctx).focus,
            ({
                let v = old(self)@;
                let n = v.items.len();
                let sel = first_selected(v.items);
                let target: Option<int> = match ev.key {
                    Key::Up => match sel {
                        Some(i) => if i > 0 { Some(i - 1) } else { None },
                        None => None,
                    },
                    Key::Down => match sel {
                        Some(i) => if i + 1 < n { Some(i + 1) } else { None },
                        None => if n > 0 { Some(0) } else { None },
                    },
                    _ => None,
                };
                if !(ev.kind == KeyEventKind::Down && v.base.state.focused) {
                    &&& final(self)@ == v
                    &&& r.0 == EventResult::Ignored && r.1 is Nothing
                    &&& final(ctx).should_redraw == old(ctx).should_redraw
                } else if ev.key == Key::Enter {
                    &&& final(self)@ == v
                    &&& final(ctx).should_redraw == old(ctx).should_redraw
                    &&& match sel {
                        Some(i) => r.0 == EventResult::Handled && (r.1 matches ListAction::Activate(s) && s@ == v.items[i].id),
                        None => r.0 == EventResult::Ignored && r.1 is Nothing,
                    }
                } else if ev.key == Key::Up || ev.key == Key::Down {
                    &&& r.0 == EventResult::Handled
                    &&& match target {
                        Some(t) => {
                            let step = select_step(v.items, v.selection_mode, v.items[t].id);
                            &&& final(self)@ == (ListViewView { items: step.0, ..v })
                            &&& (if step.1 { r.1 matches ListAction::Select(s) && s@ == v.items[t].id } else { r.1 is Nothing })
                            &&& final(ctx).should_redraw
                        },
                        None => {
                            &&& final(self)@ == v
                            &&& r.1 is Nothing
                            &&& final(ctx).should_redraw == old(ctx).should_redraw
                        },
                    }
                } else {
                    &&& final(self)@ == v
                    &&& r.0 == EventResult::Ignored && r.1 is Nothing
                    &&& final(ctx).should_redraw == old(ctx).should_redraw
                }
            }),
    {
        if !(ev.kind == KeyEventKind::Down && self.base.state.focused) {
            return (EventResult::Ignored, ListAction::Nothing);
        }
        let sel = find_selected(&self.items);
        match ev.key {
            Key::Enter => {
                match sel {
                    Some(i) => (EventResult::Handled, ListAction::Activate(self.items[i].id.clone())),
                    None => (EventResult::Ignored, ListAction::Nothing),
                }
            },
            Key::Up | Key::Down => {
                let n = self.items.len();
                let target: Option<usize> = if ev.key == Key::Up {
                    match sel {
                        Some(i) => if i > 0 { Some(i - 1) } else { None },
                        None => None,
                    }
                } else {
                    match sel {
                        Some(i) => if i + 1 < n { Some(i + 1) } else { None },
                        None => if n > 0 { Some(0) } else { None },
                    }
                };
                match target {
                    Some(t) => {
                        let id = self.items[t].id.clone();
                        let notify = self.select(id.as_str());
                        ctx.request_redraw();
                        if notify {
                            (EventResult::Handled, ListAction::Select(id))
                        } else {
                            (EventResult::Handled, ListAction::Nothing)
                        }
                    },
                    None => (EventResult::Handled, ListAction::Nothing),
                }
            },
            _ => (EventResult::Ignored, ListAction::Nothing),
        }
    }
}

/// Under single selection, selecting leaves at most one item selected;
/// clearing leaves none; without selection, selecting changes nothing.
pub proof fn lemma_single_selection(s: Seq<ListItemView>, id: Seq<char>)
    ensures
        forall|i: int, j: int|
            0 <= i < s.len() && 0 <= j < s.len()
            && (#[trigger] select_step(s, SelectionMode::Single, id).0[i]).selected
            && (#[trigger] select_step(s, SelectionMode::Single, id).0[j]).selected ==> i == j,
        forall|i: int| 0 <= i < s.len() ==> !(#[trigger] cleared(s)[i]).selected,
        select_step(s, SelectionMode::NoSelection, id) == (s, false),
{
}

/// Two item lists that agree on ids have the same first position for
/// every id.
proof fn lemma_first_with_id_by_ids(s1: Seq<ListItemView>, s2: Seq<ListItemView>, id: Seq<char>)
    requires
        s1.len() == s2.len(),
        forall|i: int| 0 <= i < s1.len() ==> #[trigger] s1[i].id == s2[i].id,
    ensures
        first_with_id(s1, id) == first_with_id(s2, id),
{
    if exists|i: int| first_id_at(s1, id, i) {
        let i = choose|i: int| first_id_at(s1, id, i);
        assert(s1[i].id == s2[i].id);
        assert forall|j: int| 0 <= j < i implies s2[j].id != id by {
            assert(s1[j].id == s2[j].id);
        }
        assert(first_id_at(s2, id, i));
        lemma_first_id_unique(s1, id, i);
        lemma_first_id_unique(s2, id, i);
    } else if exists|i: int| first_id_at(s2, id, i) {
        let i = choose|i: int| first_id_at(s2, id, i);
        assert(s1[i].id == s2[i].id);
        assert forall|j: int| 0 <= j < i implies s1[j].id != id by {
            assert(s1[j].id == s2[j].id);
        }
        assert(first_id_at(s1, id, i));
    }
}

/// Selecting the same id twice leaves the list as selecting it once.
pub proof fn lemma_select_idempotent(s: Seq<ListItemView>, mode: SelectionMode, id: Seq<char>)
    ensures
        select_step(select_step(s, mode, id).0, mode, id).0 == select_step(s, mode, id).0,
{
    let once = select_step(s, mode, id).0;
    if mode != SelectionMode::NoSelection {
        assert(once.len() == s.len());
        assert forall|i: int| 0 <= i < s.len() implies #[trigger] s[i].id == once[i].id by {}
        lemma_first_with_id_by_ids(s, once, id);
        let twice = select_step(once, mode, id).0;
        assert(twice =~= once);
    }
}

/// Selecting or toggling keeps the items' ids.
proof fn lemma_steps_keep_ids(s: Seq<ListItemView>, mode: SelectionMode, id: Seq<char>)
    ensures
        select_step(s, mode, id).0.len() == s.len(),
        toggle_step(s, mode, id).0.len() == s.len(),
        forall|j: int| 0 <= j < s.len() ==> (#[trigger] select_step(s, mode, id).0[j]).id == s[j].id,
        forall|j: int| 0 <= j < s.len() ==> (#[trigger] toggle_step(s, mode, id).0[j]).id == s[j].id,
{
}

/// A left press on an item is never an activation unless the click
/// remembered last was on an item with the same id and came less than
/// 500 ms before: otherwise it takes the focus, is remembered as the last
/// click, and any selection it reports is of that item.
pub proof fn lemma_other_press_does_not_activate(
    v: ListViewView,
    ev: PointerEvent,
    i: usize,
    now: Instant,
    elapsed: Option<u128>,
    w: ListViewView,
    res: EventResult,
    a: ListAction,
    f: (Option<WidgetId>, Option<WidgetId>),
    d: (bool, bool),
)
    requires
        ev.kind == MouseEventKind::Down,
        ev.button == Some(MouseButton::Left),
        i < v.items.len(),
        v.last_click.id != Some(v.items[i as int].id) || !(elapsed matches Some(ms) && ms < 500),
        list_pointer_outcome(v, ev, Some(i), now, elapsed, w, res, a, f.0, f.1, d.0, d.1),
    ensures
        !(a is Activate),
        a matches ListAction::Select(s) ==> s@ == v.items[i as int].id,
        w.last_click == (ClickMemoryView { time: Some(now), id: Some(v.items[i as int].id) }),
        w.base.state.focused,
        f.1 == Some(v.base.id),
        res == EventResult::Handled,
{
}

/// A press on an item followed by a second press on it within the
/// double-click gap activates it; the first press leaves the list focused,
/// and under single selection an enabled item that is the first with its
/// id is then the first selected one, which Enter activates.
pub proof fn lemma_double_click_activates(
    v: ListViewView,
    ev: PointerEvent,
    i: usize,
    t0: Instant,
    t1: Instant,
    gap: u128,
    w1: ListViewView,
    r1: EventResult,
    a1: ListAction,
    w2: ListViewView,
    r2: EventResult,
    a2: ListAction,
    f: (Option<WidgetId>, Option<WidgetId>, Option<WidgetId>),
    d: (bool, bool, bool),
)
    requires
        ev.kind == MouseEventKind::Down,
        is_left(ev.button),
        i < v.items.len(),
        gap < DOUBLE_CLICK_MILLIS,
        list_pointer_outcome(v, ev, Some(i), t0, None, w1, r1, a1, f.0, f.1, d.0, d.1),
        list_pointer_outcome(w1, ev, Some(i), t1, Some(gap), w2, r2, a2, f.1, f.2, d.1, d.2),
    ensures
        w1.base.state.focused,
        w2.base.state.focused,
        a2 matches ListAction::Activate(s) && s@ == v.items[i as int].id,
        v.selection_mode == SelectionMode::Single && !v.items[i as int].disabled
            && first_id_at(v.items, v.items[i as int].id, i as int) ==> first_selected(w1.items) == Some(i as int),
{
    let id = v.items[i as int].id;
    lemma_steps_keep_ids(v.items, v.selection_mode, id);
    assert(w1.items[i as int].id == id);
    if v.selection_mode == SelectionMode::Single && !v.items[i as int].disabled && first_id_at(v.items, id, i as int) {
        lemma_first_id_unique(v.items, id, i as int);
        let b = cleared(v.items).update(i as int, with_selected(cleared(v.items)[i as int], true));
        assert(w1.items == b);
        lemma_first_selected_unique(b, i as int);
    }
}

impl Widget for ListView {
    fn id(&self) -> (r: WidgetId)
        ensures
            r == self@.base.id,
    {
        self.base.id
    }

    fn widget_type_name(&self) -> (r: &'static str)
        ensures
            r@ == "list-view"@,
    {
        "list-view"
    }

    fn element_id(&self) -> (r: Option<&str>)
        ensures
            match r {
                Some(s) => self@.base.element_id == Some(s@),
                None => self@.base.element_id is None,
            },
    {
        self.base.element_id_str()
    }

    fn classes(&self) -> (r: &ClassList)
        ensures
            r@ == self@.base.classes,
    {
        &self.base.classes
    }

    fn state(&self) -> (r: WidgetState)
        ensures
            r == self@.base.state,
    {
        self.base.state
    }
}

} // verus!
