//! Context (right-click) menu widget.
use vstd::prelude::*;

use super::{BaseView, EventContext, Widget, WidgetBase, WidgetId, WidgetIds, succ_id};
use crate::css::{added, cleared_state, ClassList, WidgetState};
use crate::event::{EventResult, Key, KeyEvent, KeyEventKind, MouseButton, MouseEventKind, PointerEvent};
use crate::text::{opt_view, owned};

verus! {

/// Abstract contents of a context `MenuItem`.
pub struct MenuItemView {
    pub id: Seq<char>,
    pub label: Seq<char>,
    pub icon: Option<Seq<char>>,
    pub shortcut: Option<Seq<char>>,
    pub disabled: bool,
    pub separator: bool,
    pub submenu: Option<Seq<MenuItem>>,
}

/// An entry of a context menu.
#[derive(Debug)]
pub struct MenuItem {
    pub id: String,
    pub label: String,
    pub icon: Option<String>,
    pub shortcut: Option<String>,
    pub disabled: bool,
    pub separator: bool,
    pub submenu: Option<Vec<MenuItem>>,
}

impl View for MenuItem {
    type V = MenuItemView;

    open spec fn view(&self) -> MenuItemView {
        MenuItemView {
            id: self.id@,
            label: self.label@,
            icon: opt_view(&self.icon),
            shortcut: opt_view(&self.shortcut),
            disabled: self.disabled,
            separator: self.separator,
            submenu: match self.submenu {
                Some(v) => Some(v@),
                None => None,
            },
        }
    }
}

impl MenuItem {
    /// An enabled entry without icon, shortcut or submenu.
    pub fn new(id: &str, label: &str) -> (r: Self)
        ensures
            r@ == (MenuItemView {
                id: id@,
                label: label@,
                icon: None,
                shortcut: None,
                disabled: false,
                separator: false,
                submenu: None,
            }),
    {
        MenuItem { id: owned(id), label: owned(label), icon: None, shortcut: None, disabled: false, separator: false, submenu: None }
    }

    /// A separator line: disabled, with empty id and label.
    pub fn separator() -> (r: Self)
        ensures
            r@ == (MenuItemView {
                id: Seq::empty(),
                label: Seq::empty(),
                icon: None,
                shortcut: None,
                disabled: true,
                separator: true,
                submenu: None,
            }),
    {
        MenuItem {
            id: String::new(),
            label: String::new(),
            icon: None,
            shortcut: None,
            disabled: true,
            separator: true,
            submenu: None,
        }
    }

    /// Set the icon.
    pub fn icon(self, icon: &str) -> (r: Self)
        ensures
            r@ == (MenuItemView { icon: Some(icon@), ..self@ }),
    {
        MenuItem { icon: Some(owned(icon)), ..self }
    }

    /// Set the shortcut text.
    pub fn shortcut(self, shortcut: &str) -> (r: Self)
        ensures
            r@ == (MenuItemView { shortcut: Some(shortcut@), ..self@ }),
    {
        MenuItem { shortcut: Some(owned(shortcut)), ..self }
    }

    /// Set the disabled state.
    pub fn disabled(self, disabled: bool) -> (r: Self)
        ensures
            r@ == (MenuItemView { disabled, ..self@ }),
    {
        MenuItem { disabled, ..self }
    }

    /// Set the submenu entries.
    pub fn submenu(self, items: Vec<MenuItem>) -> (r: Self)
        ensures
            r@ == (MenuItemView { submenu: Some(items@), ..self@ }),
    {
        MenuItem { submenu: Some(items), ..self }
    }
}

/// What the owner of a context menu is asked to do: tell the close
/// handler, or the close handler and then the select handler of an entry id.
#[derive(Debug)]
pub enum ContextMenuAction {
    Nothing,
    Close,
    Select(String),
}

/// The views of a sequence of entries.
pub open spec fn context_items_view(s: Seq<MenuItem>) -> Seq<MenuItemView> {
    s.map_values(|x: MenuItem| x@)
}

/// Which entries are separators.
pub open spec fn separators(s: Seq<MenuItemView>) -> Seq<bool> {
    s.map_values(|x: MenuItemView| x.separator)
}

/// Moving up from position `i`: past separators, but not beyond the first
/// entry.
pub open spec fn skip_up(seps: Seq<bool>, i: int) -> int
    decreases i,
{
    if 0 < i && i < seps.len() && seps[i] { skip_up(seps, i - 1) } else { i }
}

/// Moving down from position `i`: past separators, but not beyond the
/// last entry.
pub open spec fn skip_down(seps: Seq<bool>, i: int) -> int
    decreases seps.len() - i,
{
    if 0 <= i && i + 1 < seps.len() && seps[i] { skip_down(seps, i + 1) } else { i }
}

/// Moving down from position `i` lands on the first entry at or after `i`
/// that is no separator, or on the last entry when only separators
/// follow; every entry passed over is a separator.
pub proof fn lemma_skip_down_lands(seps: Seq<bool>, i: int)
    requires
        0 <= i < seps.len(),
    ensures
        i <= skip_down(seps, i) < seps.len(),
        !seps[skip_down(seps, i)] || skip_down(seps, i) == seps.len() - 1,
        forall|k: int| i <= k < skip_down(seps, i) ==> #[trigger] seps[k],
    decreases seps.len() - i,
{
    if i + 1 < seps.len() && seps[i] {
        lemma_skip_down_lands(seps, i + 1);
    }
}

/// Moving up from position `i` lands on the last entry at or before `i`
/// that is no separator, or on the first entry when only separators come
/// before; every entry passed over is a separator.
pub proof fn lemma_skip_up_lands(seps: Seq<bool>, i: int)
    requires
        0 <= i < seps.len(),
    ensures
        0 <= skip_up(seps, i) <= i,
        !seps[skip_up(seps, i)] || skip_up(seps, i) == 0,
        forall|k: int| skip_up(seps, i) < k <= i ==> #[trigger] seps[k],
    decreases i,
{
    if 0 < i && seps[i] {
        lemma_skip_up_lands(seps, i - 1);
    }
}

/// Abstract contents of a `ContextMenu`.
pub struct ContextMenuView {
    pub base: BaseView,
    pub items: Seq<MenuItemView>,
    pub visible: bool,
    pub hovered_index: Option<usize>,
}

/// A menu shown at a point until an entry is chosen or it is dismissed.
#[derive(Debug)]
pub struct ContextMenu {
    base: WidgetBase,
    items: Vec<MenuItem>,
    visible: bool,
    hovered_index: Option<usize>,
}

impl View for ContextMenu {
    type V = ContextMenuView;

    closed spec fn view(&self) -> ContextMenuView {
        ContextMenuView {
            base: self.base@,
            items: context_items_view(self.items@),
            visible: self.visible,
            hovered_index: self.hovered_index,
        }
    }
}

/// The entry at `i` can be chosen: it exists, is enabled and is no separator.
pub open spec fn choosable_at(v: ContextMenuView, i: usize) -> bool {
    i < v.items.len() && !v.items[i as int].disabled && !v.items[i as int].separator
}

impl ContextMenu {
    /// A hidden, empty menu.
    pub fn new(ids: &mut WidgetIds) -> (r: Self)
        ensures
            r@.base.id == old(ids)@,
            final(ids)@ == succ_id(old(ids)@),
            r@.base.classes == seq!["context-menu"@],
            r@.base.element_id is None,
            r@.base.state == cleared_state(),
            r@.items.len() == 0,
            !r@.visible,
            r@.hovered_index is None,
    {
        ContextMenu { base: WidgetBase::new(ids).with_class("context-menu"), items: Vec::new(), visible: false, hovered_index: None }
    }

    /// Append an entry.
    pub fn item(self, item: MenuItem) -> (r: Self)
        ensures
            r@ == (ContextMenuView { items: self@.items.push(item@), ..self@ }),
    {
        let mut m = self;
        m.items.push(item);
        assert(context_items_view(m.items@) =~= self@.items.push(item@));
        m
    }

    /// Replace the entries.
    pub fn items(self, items: Vec<MenuItem>) -> (r: Self)
        ensures
            r@ == (ContextMenuView { items: context_items_view(items@), ..self@ }),
    {
        ContextMenu { items, ..self }
    }

    /// Show the menu with nothing hovered.
    pub fn show(&mut self)
        ensures
            final(self)@ == (ContextMenuView { visible: true, hovered_index: None, ..old(self)@ }),
    {
        self.visible = true;
        self.hovered_index = None;
    }

    /// Hide the menu; the close handler is then told.
    pub fn hide_menu(&mut self)
        ensures
            final(self)@ == (ContextMenuView { visible: false, ..old(self)@ }),
    {
        self.visible = false;
    }

    /// Whether the menu shows.
    pub fn is_visible(&self) -> (r: bool)
        ensures
            r == self@.visible,
    {
        self.visible
    }

    /// The hovered entry, if any.
    pub fn hovered_index(&self) -> (r: Option<usize>)
        ensures
            r == self@.hovered_index,
    {
        self.hovered_index
    }

    /// Add a CSS class.
    pub fn class(self, class: &str) -> (r: Self)
        ensures
            r@ == (ContextMenuView { base: BaseView { classes: added(self@.base.classes, class@), ..self@.base }, ..self@ }),
    {
        let mut m = self;
        m.base.classes.add(class);
        m
    }

    /// Whether the entry at `i` can be chosen.
    fn can_choose(&self, i: usize) -> (r: bool)
        ensures
            r == choosable_at(self@, i),
    {
        i < self.items.len() && !self.items[i].disabled && !self.items[i].separator
    }

    /// Handles a pointer event while the menu shows; `in_menu` says whether
    /// the pointer lies in the menu and `row` which entry's band it is in. A
    /// move hovers the entry under the pointer (never a separator) and
    /// drops the hover outside the menu; a left press outside dismisses
    /// the menu; releasing the left button on a choosable hovered entry
    /// chooses it.
    pub fn handle_pointer(&mut self, ev: PointerEvent, in_menu: bool, row: Option<usize>, ctx: &mut EventContext) -> (r: (EventResult, ContextMenuAction))
        ensures
            final(ctx).focus == old(ctx).focus,
            ({
                let v = old(self)@;
                if !v.visible {
                    &&& final(self)@ == v
                    &&& r.0 == EventResult::Ignored && r.1 is Nothing
                    &&& final(ctx).should_redraw == old(ctx).should_redraw
                } else {
                    match ev.kind {
                        MouseEventKind::Move => if in_menu {
                            let hover = row matches Some(i) && i < v.items.len() && !v.items[i as int].separator
                                && v.hovered_index != Some(i);
                            &&& final(self)@ == (if hover { ContextMenuView { hovered_index: row, ..v } } else { v })
                            &&& r.0 == EventResult::Ignored && r.1 is Nothing
                            &&& final(ctx).should_redraw == (old(ctx).should_redraw || hover)
                        } else {
                            &&& final(self)@ == (ContextMenuView { hovered_index: None, ..v })
                            &&& r.0 == EventResult::Ignored && r.1 is Nothing
                            &&& final(ctx).should_redraw == (old(ctx).should_redraw || v.hovered_index is Some)
                        },
                        MouseEventKind::Down if ev.button == Some(MouseButton::Left) && !in_menu => {
                            &&& final(self)@ == (ContextMenuView { visible: false, ..v })
                            &&& r.0 == EventResult::Handled && r.1 is Close
                            &&& final(ctx).should_redraw
                        },
                        MouseEventKind::Up if ev.button == Some(MouseButton::Left)
                            && v.hovered_index is Some && choosable_at(v, v.hovered_index->0) => {
                            &&& final(self)@ == (ContextMenuView { visible: false, ..v })
                            &&& r.0 == EventResult::Handled
                            &&& r.1 matches ContextMenuAction::Select(s) && s@ == v.items[v.hovered_index->0 as int].id
                            &&& final(ctx).should_redraw
                        },
                        _ => {
                            &&& final(self)@ == v
                            &&& r.0 == EventResult::Ignored && r.1 is Nothing
                            &&& final(ctx).should_redraw == old(ctx).should_redraw
                        },
                    }
                }
            }),
    {
        if !self.visible {
            return (EventResult::Ignored, ContextMenuAction::Nothing);
        }
        match ev.kind {
            MouseEventKind::Move => {
                if in_menu {
                    if let Some(i) = row {
                        if i < self.items.len() && !self.items[i].separator && self.hovered_index != Some(i) {
                            self.hovered_index = Some(i);
                            ctx.request_redraw();
                        }
                    }
                } else if self.hovered_index.is_some() {
                    self.hovered_index = None;
                    ctx.request_redraw();
                }
                (EventResult::Ignored, ContextMenuAction::Nothing)
            },
            MouseEventKind::Down => {
                if ev.button == Some(MouseButton::Left) && !in_menu {
                    self.hide_menu();
                    ctx.request_redraw();
                    return (EventResult::Handled, ContextMenuAction::Close);
                }
                (EventResult::Ignored, ContextMenuAction::Nothing)
            },
            MouseEventKind::Up => {
                if ev.button == Some(MouseButton::Left) {
                    if let Some(i) = self.hovered_index {
                        if self.can_choose(i) {
                            let id = self.items[i].id.clone();
                            self.hide_menu();
                            ctx.request_redraw();
                            return (EventResult::Handled, ContextMenuAction::Select(id));
                        }
                    }
                }
                (EventResult::Ignored, ContextMenuAction::Nothing)
            },
            _ => (EventResult::Ignored, ContextMenuAction::Nothing),
        }
    }

    /// Handles a key press while the menu shows: Escape dismisses it; Up
    /// and Down move the hover, past separators (see `skip_up` and
    /// `skip_down`); Enter chooses a choosable hovered entry.
    pub fn handle_key(&mut self, ev: &KeyEvent, ctx: &mut EventContext) -> (r: (EventResult, ContextMenuAction))
        ensures
            final(ctx).focus == old(ctx).focus,
            ({
                let v = old(self)@;
                let n = v.items.len();
                let cur: int = if v.hovered_index is Some { v.hovered_index->0 as int } else { 0 };
                let seps = separators(v.items);
                if !v.visible || ev.kind != KeyEventKind::Down {
                    &&& final(self)@ == v
                    &&& r.0 == EventResult::Ignored && r.1 is Nothing
                    &&& final(ctx).should_redraw == old(ctx).should_redraw
                } else {
                    match ev.key {
                        Key::Escape => {
                            &&& final(self)@ == (ContextMenuView { visible: false, ..v })
                            &&& r.0 == EventResult::Handled && r.1 is Close
                            &&& final(ctx).should_redraw
                        },
                        Key::Up => {
                            &&& final(self)@ == (if cur > 0 {
                                ContextMenuView { hovered_index: Some(skip_up(seps, cur - 1) as usize), ..v }
                            } else {
                                v
                            })
                            &&& r.0 == EventResult::Handled && r.1 is Nothing
                            &&& final(ctx).should_redraw == (old(ctx).should_redraw || cur > 0)
                        },
                        Key::Down => {
                            &&& final(self)@ == (if cur + 1 < n {
                                ContextMenuView { hovered_index: Some(skip_down(seps, cur + 1) as usize), ..v }
                            } else {
                                v
                            })
                            &&& r.0 == EventResult::Handled && r.1 is Nothing
                            &&& final(ctx).should_redraw == (old(ctx).should_redraw || cur + 1 < n)
                        },
                        Key::Enter if v.hovered_index is Some && choosable_at(v, v.hovered_index->0) => {
                            &&& final(self)@ == (ContextMenuView { visible: false, ..v })
                            &&& r.0 == EventResult::Handled
                            &&& r.1 matches ContextMenuAction::Select(s) && s@ == v.items[v.hovered_index->0 as int].id
                            &&& final(ctx).should_redraw
                        },
                        _ => {
                            &&& final(self)@ == v
                            &&& r.0 == EventResult::Ignored && r.1 is Nothing
                            &&& final(ctx).should_redraw == old(ctx).should_redraw
                        },
                    }
                }
            }),
    {
        if !self.visible || ev.kind != KeyEventKind::Down {
            return (EventResult::Ignored, ContextMenuAction::Nothing);
        }
        let ghost seps = separators(self@.items);
        match ev.key {
            Key::Escape => {
                self.hide_menu();
                ctx.request_redraw();
                (EventResult::Handled, ContextMenuAction::Close)
            },
            Key::Up => {
                let current = match self.hovered_index { Some(i) => i, None => 0 };
                if current > 0 {
                    let mut new_index = current - 1;
                    while new_index > 0 && new_index < self.items.len() && self.items[new_index].separator
                        invariant
                            new_index < current,
                            seps == separators(self@.items),
                            seps.len() == self.items@.len(),
                            skip_up(seps, new_index as int) == skip_up(seps, current - 1),
                        decreases new_index,
                    {
                        assert(seps[new_index as int] == self.items@[new_index as int].separator);
                        new_index = new_index - 1;
                    }
                    self.hovered_index = Some(new_index);
                    ctx.request_redraw();
                }
                (EventResult::Handled, ContextMenuAction::Nothing)
            },
            Key::Down => {
                let current = match self.hovered_index { Some(i) => i, None => 0 };
                let n = self.items.len();
                if current < n && current + 1 < n {
                    let mut new_index = current + 1;
                    while new_index + 1 < n && self.items[new_index].separator
                        invariant
                            current < new_index < n,
                            n == self.items@.len(),
                            seps == separators(self@.items),
                            seps.len() == n,
                            skip_down(seps, new_index as int) == skip_down(seps, current + 1),
                        decreases n - new_index,
                    {
                        assert(seps[new_index as int] == self.items@[new_index as int].separator);
                        new_index = new_index + 1;
                    }
                    self.hovered_index = Some(new_index);
                    ctx.request_redraw();
                }
                (EventResult::Handled, ContextMenuAction::Nothing)
            },
            Key::Enter => {
                if let Some(i) = self.hovered_index {
                    if self.can_choose(i) {
                        let id = self.items[i].id.clone();
                        self.hide_menu();
                        ctx.request_redraw();
                        return (EventResult::Handled, ContextMenuAction::Select(id));
                    }
                }
                (EventResult::Ignored, ContextMenuAction::Nothing)
            },
            _ => (EventResult::Ignored, ContextMenuAction::Nothing),
        }
    }
}

impl Widget for ContextMenu {
    fn id(&self) -> (r: WidgetId)
        ensures
            r == self@.base.id,
    {
        self.base.id
    }

    fn widget_type_name(&self) -> (r: &'static str)
        ensures
            r@ == "context-menu"@,
    {
        "context-menu"
    }

    fn element_id(&self) -> (r: Option<&str>)
        ensures
            match r {
                Some(s) => self@.base.element_id == Some(s@),
                None => self@.base.element_id is None,
            },
    {
        self.base.element_id_str()
    }

    fn classes(&self) -> (r: &ClassList)
        ensures
            r@ == self@.base.classes,
    {
        &self.base.classes
    }

    fn state(&self) -> (r: WidgetState)
        ensures
            r == self@.base.state,
    {
        self.base.state
    }
}

} // verus!
