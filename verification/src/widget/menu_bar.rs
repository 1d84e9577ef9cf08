//! Menu bar widget: menus of actions, checkable and radio items,
//! separators and submenus, driven by pointer and keyboard.
use vstd::prelude::*;
use vstd::arithmetic::div_mod::{lemma_fundamental_div_mod, lemma_fundamental_div_mod_converse_mod, lemma_mod_bound, lemma_small_mod};

use super::{BaseView, EventContext, Widget, WidgetBase, WidgetId, WidgetIds, succ_id};
use crate::css::{added, cleared_state, ClassList, WidgetState};
use crate::event::{is_left, left_button, EventResult, Key, KeyEvent, KeyEventKind, MouseEventKind, PointerEvent};
use crate::theme::{ColorAdjust, ColorChoice, ThemeColor};
use crate::text::{lowercase, owned, replace_spaces, spaces_replaced, str_eq, to_lowercase};

verus! {

/// What a menu entry is.
#[derive(Debug)]
pub enum MenuItemKind {
    Action { label: String, shortcut: Option<String>, icon: Option<String>, enabled: bool },
    Checkbox { label: String, checked: bool, enabled: bool },
    Radio { label: String, selected: bool, group: String, enabled: bool },
    Separator,
    Submenu { label: String, menu: Menu, enabled: bool },
}

/// The label of an entry (empty for a separator).
pub open spec fn kind_label(k: MenuItemKind) -> Seq<char> {
    match k {
        MenuItemKind::Action { label, .. } => label@,
        MenuItemKind::Checkbox { label, .. } => label@,
        MenuItemKind::Radio { label, .. } => label@,
        MenuItemKind::Submenu { label, .. } => label@,
        MenuItemKind::Separator => Seq::empty(),
    }
}

/// Whether an entry can be chosen (never a separator).
pub open spec fn kind_enabled(k: MenuItemKind) -> bool {
    match k {
        MenuItemKind::Action { enabled, .. } => enabled,
        MenuItemKind::Checkbox { enabled, .. } => enabled,
        MenuItemKind::Radio { enabled, .. } => enabled,
        MenuItemKind::Submenu { enabled, .. } => enabled,
        MenuItemKind::Separator => false,
    }
}

/// The entry with its enabled flag set to `e` (a separator stays as it is).
pub open spec fn kind_with_enabled(k: MenuItemKind, e: bool) -> MenuItemKind {
    match k {
        MenuItemKind::Action { label, shortcut, icon, .. } => MenuItemKind::Action { label, shortcut, icon, enabled: e },
        MenuItemKind::Checkbox { label, checked, .. } => MenuItemKind::Checkbox { label, checked, enabled: e },
        MenuItemKind::Radio { label, selected, group, .. } => MenuItemKind::Radio { label, selected, group, enabled: e },
        MenuItemKind::Submenu { label, menu, .. } => MenuItemKind::Submenu { label, menu, enabled: e },
        MenuItemKind::Separator => MenuItemKind::Separator,
    }
}

/// A checkbox entry flipped (any other entry stays as it is).
pub open spec fn kind_toggled(k: MenuItemKind) -> MenuItemKind {
    match k {
        MenuItemKind::Checkbox { label, checked, enabled } => MenuItemKind::Checkbox { label, checked: !checked, enabled },
        other => other,
    }
}

/// A radio entry selected (any other entry stays as it is).
pub open spec fn kind_radio_selected(k: MenuItemKind) -> MenuItemKind {
    match k {
        MenuItemKind::Radio { label, group, enabled, .. } => MenuItemKind::Radio { label, selected: true, group, enabled },
        other => other,
    }
}

/// The id an entry gets from its label: lowercased, with spaces as `_`.
pub open spec fn id_of_label(label: Seq<char>) -> Seq<char> {
    spaces_replaced(lowercase(label), '_')
}

/// The id an entry gets from its label (see `id_of_label`).
fn label_id(label: &str) -> (r: String)
    ensures
        r@ == id_of_label(label@),
{
    let l = to_lowercase(label);
    replace_spaces(l.as_str(), '_')
}

/// The glyph drawn before an entry's label: a check mark (or a blank) for a
/// checkbox, a filled (or hollow) dot for a radio entry, and the icon of an
/// action that has one.
pub open spec fn kind_marker(k: MenuItemKind) -> Option<Seq<char>> {
    match k {
        MenuItemKind::Checkbox { checked, .. } => Some(if checked { "✓"@ } else { " "@ }),
        MenuItemKind::Radio { selected, .. } => Some(if selected { "●"@ } else { "○"@ }),
        MenuItemKind::Action { icon, .. } => match icon {
            Some(i) => Some(i@),
            None => None,
        },
        _ => None,
    }
}

/// The text drawn at the right end of an entry: an action's shortcut, or an
/// arrow for a submenu.
pub open spec fn kind_trailer(k: MenuItemKind) -> Option<Seq<char>> {
    match k {
        MenuItemKind::Action { shortcut, .. } => match shortcut {
            Some(s) => Some(s@),
            None => None,
        },
        MenuItemKind::Submenu { .. } => Some("▶"@),
        _ => None,
    }
}

/// The view of an optional string.
pub open spec fn opt_str_view(r: Option<&str>) -> Option<Seq<char>> {
    match r {
        Some(s) => Some(s@),
        None => None,
    }
}

/// Abstract contents of a `MenuItem`.
pub struct MenuItemView {
    pub id: Seq<char>,
    pub kind: MenuItemKind,
}

/// An entry of a menu.
#[derive(Debug)]
pub struct MenuItem {
    id: String,
    kind: MenuItemKind,
}

impl View for MenuItem {
    type V = MenuItemView;

    closed spec fn view(&self) -> MenuItemView {
        MenuItemView { id: self.id@, kind: self.kind }
    }
}

impl MenuItem {
    /// An enabled action with a keyboard shortcut; its id comes from the label.
    pub fn new(label: &str, shortcut: &str) -> (r: Self)
        ensures
            r@.id == id_of_label(label@),
            r@.kind matches MenuItemKind::Action { label: l, shortcut: Some(s), icon: None, enabled: true }
                && l@ == label@ && s@ == shortcut@,
    {
        MenuItem {
            id: label_id(label),
            kind: MenuItemKind::Action { label: owned(label), shortcut: Some(owned(shortcut)), icon: None, enabled: true },
        }
    }

    /// An enabled action without shortcut; its id comes from the label.
    pub fn action(label: &str) -> (r: Self)
        ensures
            r@.id == id_of_label(label@),
            r@.kind matches MenuItemKind::Action { label: l, shortcut: None, icon: None, enabled: true } && l@ == label@,
    {
        MenuItem {
            id: label_id(label),
            kind: MenuItemKind::Action { label: owned(label), shortcut: None, icon: None, enabled: true },
        }
    }

    /// An enabled checkable entry; its id comes from the label.
    pub fn checkbox(label: &str, checked: bool) -> (r: Self)
        ensures
            r@.id == id_of_label(label@),
            r@.kind matches MenuItemKind::Checkbox { label: l, checked: c, enabled: true } && l@ == label@ && c == checked,
    {
        MenuItem { id: label_id(label), kind: MenuItemKind::Checkbox { label: owned(label), checked, enabled: true } }
    }

    /// An enabled radio entry of a group; its id comes from the label.
    pub fn radio(label: &str, group: &str, selected: bool) -> (r: Self)
        ensures
            r@.id == id_of_label(label@),
            r@.kind matches MenuItemKind::Radio { label: l, selected: s, group: g, enabled: true }
                && l@ == label@ && s == selected && g@ == group@,
    {
        MenuItem {
            id: label_id(label),
            kind: MenuItemKind::Radio { label: owned(label), selected, group: owned(group), enabled: true },
        }
    }

    /// A separator line, with the id `separator`.
    pub fn separator() -> (r: Self)
        ensures
            r@.id == "separator"@,
            r@.kind is Separator,
    {
        MenuItem { id: owned("separator"), kind: MenuItemKind::Separator }
    }

    /// Set the id.
    pub fn id(self, id: &str) -> (r: Self)
        ensures
            r@ == (MenuItemView { id: id@, ..self@ }),
    {
        MenuItem { id: owned(id), ..self }
    }

    /// Set the icon of an action (other entries have none).
    pub fn icon(self, icon: &str) -> (r: Self)
        ensures
            r@.id == self@.id,
            match self@.kind {
                MenuItemKind::Action { label, shortcut, enabled, .. } =>
                    r@.kind matches MenuItemKind::Action { label: l, shortcut: s, icon: Some(i), enabled: e }
                        && l == label && s == shortcut && i@ == icon@ && e == enabled,
                _ => r@.kind == self@.kind,
            },
    {
        let kind = match self.kind {
            MenuItemKind::Action { label, shortcut, enabled, .. } =>
                MenuItemKind::Action { label, shortcut, icon: Some(owned(icon)), enabled },
            other => other,
        };
        MenuItem { id: self.id, kind }
    }

    /// Enable or disable the entry (a separator stays as it is).
    pub fn enabled(self, enabled: bool) -> (r: Self)
        ensures
            r@ == (MenuItemView { kind: kind_with_enabled(self@.kind, enabled), ..self@ }),
    {
        let kind = match self.kind {
            MenuItemKind::Action { label, shortcut, icon, .. } => MenuItemKind::Action { label, shortcut, icon, enabled },
            MenuItemKind::Checkbox { label, checked, .. } => MenuItemKind::Checkbox { label, checked, enabled },
            MenuItemKind::Radio { label, selected, group, .. } => MenuItemKind::Radio { label, selected, group, enabled },
            MenuItemKind::Submenu { label, menu, .. } => MenuItemKind::Submenu { label, menu, enabled },
            MenuItemKind::Separator => MenuItemKind::Separator,
        };
        MenuItem { id: self.id, kind }
    }

    /// The label (empty for a separator).
    pub fn label(&self) -> (r: &str)
        ensures
            r@ == kind_label(self@.kind),
    {
        match &self.kind {
            MenuItemKind::Action { label, .. } => label.as_str(),
            MenuItemKind::Checkbox { label, .. } => label.as_str(),
            MenuItemKind::Radio { label, .. } => label.as_str(),
            MenuItemKind::Submenu { label, .. } => label.as_str(),
            MenuItemKind::Separator => {
                proof {
                    reveal_strlit("");
                }
                ""
            },
        }
    }

    /// Whether the entry can be chosen.
    pub fn is_enabled(&self) -> (r: bool)
        ensures
            r == kind_enabled(self@.kind),
    {
        match &self.kind {
            MenuItemKind::Action { enabled, .. } => *enabled,
            MenuItemKind::Checkbox { enabled, .. } => *enabled,
            MenuItemKind::Radio { enabled, .. } => *enabled,
            MenuItemKind::Submenu { enabled, .. } => *enabled,
            MenuItemKind::Separator => false,
        }
    }

    /// The glyph drawn before the label (see `kind_marker`).
    pub fn marker(&self) -> (r: Option<&str>)
        ensures
            opt_str_view(r) == kind_marker(self@.kind),
    {
        match &self.kind {
            MenuItemKind::Checkbox { checked, .. } => {
                proof {
                    reveal_strlit("✓");
                    reveal_strlit(" ");
                }
                Some(if *checked { "✓" } else { " " })
            },
            MenuItemKind::Radio { selected, .. } => {
                proof {
                    reveal_strlit("●");
                    reveal_strlit("○");
                }
                Some(if *selected { "●" } else { "○" })
            },
            MenuItemKind::Action { icon, .. } => match icon {
                Some(i) => Some(i.as_str()),
                None => None,
            },
            _ => None,
        }
    }

    /// The text drawn at the right end (see `kind_trailer`).
    pub fn trailer(&self) -> (r: Option<&str>)
        ensures
            opt_str_view(r) == kind_trailer(self@.kind),
    {
        match &self.kind {
            MenuItemKind::Action { shortcut, .. } => match shortcut {
                Some(s) => Some(s.as_str()),
                None => None,
            },
            MenuItemKind::Submenu { .. } => {
                proof {
                    reveal_strlit("▶");
                }
                Some("▶")
            },
            _ => None,
        }
    }

    /// Whether the entry is a separator.
    pub fn is_separator(&self) -> (r: bool)
        ensures
            r == (self@.kind is Separator),
    {
        match &self.kind {
            MenuItemKind::Separator => true,
            _ => false,
        }
    }

    /// Flip an enabled checkbox entry; returns its new state (which the
    /// toggle handler is told), or `None` when nothing changed.
    pub fn toggle(&mut self) -> (r: Option<bool>)
        ensures
            match old(self)@.kind {
                MenuItemKind::Checkbox { checked, enabled, .. } => if enabled {
                    final(self)@ == (MenuItemView { kind: kind_toggled(old(self)@.kind), ..old(self)@ }) && r == Some(!checked)
                } else {
                    final(self)@ == old(self)@ && r is None
                },
                _ => final(self)@ == old(self)@ && r is None,
            },
    {
        let mut kind = MenuItemKind::Separator;
        std::mem::swap(&mut kind, &mut self.kind);
        let (kind, r) = match kind {
            MenuItemKind::Checkbox { label, checked, enabled } => if enabled {
                (MenuItemKind::Checkbox { label, checked: !checked, enabled }, Some(!checked))
            } else {
                (MenuItemKind::Checkbox { label, checked, enabled }, None)
            },
            other => (other, None),
        };
        self.kind = kind;
        r
    }
}

/// Abstract contents of a `Menu`.
pub struct MenuView {
    pub label: Seq<char>,
    pub items: Seq<MenuItemView>,
}

/// A menu: a label and its entries.
#[derive(Debug)]
pub struct Menu {
    label: String,
    items: Vec<MenuItem>,
}

/// The views of a sequence of entries.
pub open spec fn menu_items_view(s: Seq<MenuItem>) -> Seq<MenuItemView> {
    s.map_values(|x: MenuItem| x@)
}

impl View for Menu {
    type V = MenuView;

    closed spec fn view(&self) -> MenuView {
        MenuView { label: self.label@, items: menu_items_view(self.items@) }
    }
}

impl Menu {
    /// An empty menu.
    pub fn new(label: &str) -> (r: Self)
        ensures
            r@.label == label@,
            r@.items.len() == 0,
    {
        Menu { label: owned(label), items: Vec::new() }
    }

    /// Append an entry.
    pub fn item(self, item: MenuItem) -> (r: Self)
        ensures
            r@ == (MenuView { items: self@.items.push(item@), ..self@ }),
    {
        let mut m = self;
        m.items.push(item);
        assert(menu_items_view(m.items@) =~= self@.items.push(item@));
        m
    }

    /// Append a separator.
    pub fn separator(self) -> (r: Self)
        ensures
            r@.label == self@.label,
            r@.items.len() == self@.items.len() + 1,
            r@.items.drop_last() == self@.items,
            r@.items.last().id == "separator"@,
            r@.items.last().kind is Separator,
    {
        let s = MenuItem::separator();
        let r = self.item(s);
        assert(r@.items.drop_last() =~= self@.items);
        r
    }

    /// Append a submenu, enabled, with an id that comes from its label.
    pub fn submenu(self, menu: Menu) -> (r: Self)
        ensures
            r@.label == self@.label,
            r@.items.len() == self@.items.len() + 1,
            r@.items.drop_last() == self@.items,
            r@.items.last().id == id_of_label(menu@.label),
            r@.items.last().kind matches MenuItemKind::Submenu { label: l, menu: m, enabled: true }
                && l@ == menu@.label && m == menu,
    {
        let label = menu.label.clone();
        let id = label_id(label.as_str());
        let it = MenuItem { id, kind: MenuItemKind::Submenu { label, menu, enabled: true } };
        let r = self.item(it);
        assert(r@.items.drop_last() =~= self@.items);
        r
    }

    /// The label.
    pub fn label(&self) -> (r: &str)
        ensures
            r@ == self@.label,
    {
        self.label.as_str()
    }

    /// The entries.
    pub fn items(&self) -> (r: &[MenuItem])
        ensures
            menu_items_view(r@) == self@.items,
    {
        self.items.as_slice()
    }
}

impl Clone for Menu {
    /// A copy of the label only: entries carry handlers and are not copied.
    fn clone(&self) -> (r: Self)
        ensures
            r@.label == self@.label,
            r@.items.len() == 0,
    {
        Menu { label: self.label.clone(), items: Vec::new() }
    }
}

/// The position `k` steps from `cur` in a ring of `n` positions, forwards
/// or backwards.
pub open spec fn ring_step(cur: int, k: int, n: int, forward: bool) -> int {
    if forward { (cur + k) % n } else { (cur - k) % n }
}

/// Keyboard navigation in a menu whose entries can be chosen as `good`
/// says: the first choosable entry `k` steps from `cur` (for `k` from
/// `k0` up to the number of entries), or else the entry one step away.
pub open spec fn nav_scan(good: Seq<bool>, cur: int, forward: bool, k: int) -> int
    decreases good.len() + 1 - k,
{
    let n = good.len() as int;
    if k < 1 || k > n {
        ring_step(cur, 1, n, forward)
    } else if good[ring_step(cur, k, n, forward)] {
        ring_step(cur, k, n, forward)
    } else {
        nav_scan(good, cur, forward, k + 1)
    }
}

/// Which entries of a menu can be chosen.
pub open spec fn choosable(items: Seq<MenuItemView>) -> Seq<bool> {
    items.map_values(|it: MenuItemView| kind_enabled(it.kind))
}

/// One step around a ring, in both directions.
pub proof fn lemma_ring_step(cur: int, k: int, n: int)
    requires
        n > 0,
    ensures
        0 <= ring_step(cur, k, n, true) < n,
        0 <= ring_step(cur, k, n, false) < n,
        (ring_step(cur, k, n, true) + 1) % n == ring_step(cur, k + 1, n, true),
        ring_step(cur, k, n, false) == 0 ==> ring_step(cur, k + 1, n, false) == n - 1,
        ring_step(cur, k, n, false) != 0 ==> ring_step(cur, k + 1, n, false) == ring_step(cur, k, n, false) - 1,
        ring_step(cur, n + 1, n, true) == ring_step(cur, 1, n, true),
        ring_step(cur, n + 1, n, false) == ring_step(cur, 1, n, false),
{
    let a = cur + k;
    let b = cur - k;
    lemma_mod_bound(a, n);
    lemma_mod_bound(b, n);
    lemma_fundamental_div_mod(a, n);
    lemma_fundamental_div_mod(b, n);
    let qa = a / n;
    let ra = a % n;
    let qb = b / n;
    let rb = b % n;
    assert(a == qa * n + ra) by (nonlinear_arith)
        requires a == n * (a / n) + a % n, qa == a / n, ra == a % n;
    assert(b == qb * n + rb) by (nonlinear_arith)
        requires b == n * (b / n) + b % n, qb == b / n, rb == b % n;
    if ra + 1 < n {
        lemma_fundamental_div_mod_converse_mod(ra + 1, n, 0, ra + 1);
        lemma_fundamental_div_mod_converse_mod(a + 1, n, qa, ra + 1);
    } else {
        assert(ra + 1 == 0 * n + n);
        lemma_fundamental_div_mod_converse_mod(ra + 1, n, 1, 0);
        assert(a + 1 == (qa + 1) * n + 0) by (nonlinear_arith)
            requires a == qa * n + ra, ra + 1 == n;
        lemma_fundamental_div_mod_converse_mod(a + 1, n, qa + 1, 0);
    }
    if rb == 0 {
        assert(b - 1 == (qb - 1) * n + (n - 1)) by (nonlinear_arith)
            requires b == qb * n + rb, rb == 0;
        lemma_fundamental_div_mod_converse_mod(b - 1, n, qb - 1, n - 1);
    } else {
        lemma_fundamental_div_mod_converse_mod(b - 1, n, qb, rb - 1);
    }
    let c1 = cur + 1;
    let d1 = cur - 1;
    lemma_mod_bound(c1, n);
    lemma_mod_bound(d1, n);
    lemma_fundamental_div_mod(c1, n);
    lemma_fundamental_div_mod(d1, n);
    let q1 = c1 / n;
    let q2 = d1 / n;
    assert(cur + (n + 1) == (q1 + 1) * n + c1 % n) by (nonlinear_arith)
        requires c1 == n * (c1 / n) + c1 % n, q1 == c1 / n, c1 == cur + 1;
    lemma_fundamental_div_mod_converse_mod(cur + (n + 1), n, q1 + 1, c1 % n);
    assert(cur - (n + 1) == (q2 - 1) * n + d1 % n) by (nonlinear_arith)
        requires d1 == n * (d1 / n) + d1 % n, q2 == d1 / n, d1 == cur - 1;
    lemma_fundamental_div_mod_converse_mod(cur - (n + 1), n, q2 - 1, d1 % n);
}

/// The scan from step `k` finds a choosable entry when one lies at some
/// step `j` between `k` and the number of entries.
proof fn lemma_scan_finds(good: Seq<bool>, cur: int, forward: bool, k: int, j: int)
    requires
        good.len() > 0,
        1 <= k <= j <= good.len(),
        good[ring_step(cur, j, good.len() as int, forward)],
    ensures
        good[nav_scan(good, cur, forward, k)],
    decreases j - k,
{
    let n = good.len() as int;
    lemma_ring_step(cur, k, n);
    if !good[ring_step(cur, k, n, forward)] {
        assert(k != j);
        lemma_scan_finds(good, cur, forward, k + 1, j);
    }
}

/// Keyboard navigation in a menu with a choosable entry always lands on a
/// choosable entry, whichever entry it starts from and in both directions.
pub proof fn lemma_nav_lands_on_choosable(good: Seq<bool>, cur: int, forward: bool, p: int)
    requires
        0 <= cur < good.len(),
        0 <= p < good.len(),
        good[p],
    ensures
        good[nav_scan(good, cur, forward, 1)],
        0 <= nav_scan(good, cur, forward, 1) < good.len(),
{
    let n = good.len() as int;
    let d = if forward { p - cur } else { cur - p };
    lemma_mod_bound(d, n);
    lemma_fundamental_div_mod(d, n);
    let q = d / n;
    let r = d % n;
    let j = if r == 0 { n } else { r };
    if forward {
        assert(cur + r == (-q) * n + p) by (nonlinear_arith)
            requires d == n * (d / n) + d % n, q == d / n, r == d % n, d == p - cur;
        lemma_fundamental_div_mod_converse_mod(cur + r, n, -q, p);
        if r == 0 {
            assert(cur + n == 1 * n + p) by (nonlinear_arith)
                requires cur + r == (-q) * n + p, r == 0, 0 <= cur < n, 0 <= p < n;
            lemma_fundamental_div_mod_converse_mod(cur + n, n, 1, p);
        }
    } else {
        assert(cur - r == q * n + p) by (nonlinear_arith)
            requires d == n * (d / n) + d % n, q == d / n, r == d % n, d == cur - p;
        lemma_fundamental_div_mod_converse_mod(cur - r, n, q, p);
        if r == 0 {
            assert(cur - n == (-1) * n + p) by (nonlinear_arith)
                requires cur - r == q * n + p, r == 0, 0 <= cur < n, 0 <= p < n;
            lemma_fundamental_div_mod_converse_mod(cur - n, n, -1, p);
        }
    }
    assert(ring_step(cur, j, n, forward) == p);
    lemma_scan_finds(good, cur, forward, 1, j);
    lemma_nav_in_range(good, cur, forward, 1);
}

/// The scan always names an entry of the menu.
proof fn lemma_nav_in_range(good: Seq<bool>, cur: int, forward: bool, k: int)
    requires
        good.len() > 0,
        k >= 1,
    ensures
        0 <= nav_scan(good, cur, forward, k) < good.len(),
    decreases good.len() + 1 - k,
{
    let n = good.len() as int;
    lemma_ring_step(cur, k, n);
    lemma_ring_step(cur, 0, n);
    if k <= n && !good[ring_step(cur, k, n, forward)] {
        lemma_nav_in_range(good, cur, forward, k + 1);
    }
}

/// What the owner of a menu bar is asked to do after a choice: run an
/// action (its handler and the bar's action handler with its id), tell a
/// checkbox's toggle handler its new state, or tell a radio entry's toggle
/// handler that it is now selected. Entries are named by menu and entry
/// position.
#[derive(Debug)]
pub enum MenuAction {
    Nothing,
    Activate { menu: usize, item: usize, id: String },
    Toggled { menu: usize, item: usize, checked: bool },
    RadioSelected { menu: usize, item: usize },
}

/// Abstract contents of a `MenuBar`.
pub struct MenuBarView {
    pub base: BaseView,
    pub menus: Seq<MenuView>,
    pub active_menu: Option<usize>,
    pub hovered_menu: Option<usize>,
    pub hovered_item: Option<usize>,
    pub menu_open: bool,
}

/// A bar of menus.
#[derive(Debug)]
pub struct MenuBar {
    base: WidgetBase,
    menus: Vec<Menu>,
    active_menu: Option<usize>,
    hovered_menu: Option<usize>,
    hovered_item: Option<usize>,
    menu_open: bool,
}

/// The views of a sequence of menus.
pub open spec fn menus_view(s: Seq<Menu>) -> Seq<MenuView> {
    s.map_values(|m: Menu| m@)
}

impl View for MenuBar {
    type V = MenuBarView;

    closed spec fn view(&self) -> MenuBarView {
        MenuBarView {
            base: self.base@,
            menus: menus_view(self.menus@),
            active_menu: self.active_menu,
            hovered_menu: self.hovered_menu,
            hovered_item: self.hovered_item,
            menu_open: self.menu_open,
        }
    }
}

/// The active menu is one of the bar's, and a hovered entry is one of the
/// active menu's.
pub open spec fn menu_bar_wf(v: MenuBarView) -> bool {
    &&& v.active_menu matches Some(m) ==> m < v.menus.len()
    &&& v.hovered_item matches Some(i) ==> (v.active_menu matches Some(m) && i < v.menus[m as int].items.len())
}

/// The bar with its menu closed.
pub open spec fn closed_bar(v: MenuBarView) -> MenuBarView {
    MenuBarView { menu_open: false, active_menu: None, hovered_item: None, ..v }
}

/// The header under the pointer, when the bar has it.
pub open spec fn header_hit(v: MenuBarView, header: Option<usize>) -> Option<usize> {
    match header {
        Some(h) => if h < v.menus.len() { Some(h) } else { None },
        None => None,
    }
}

/// The entry of menu `m` under the pointer, when it can be chosen.
pub open spec fn entry_hit(v: MenuBarView, m: usize, row: Option<usize>) -> Option<usize> {
    match row {
        Some(i) => if i < v.menus[m as int].items.len() && kind_enabled(v.menus[m as int].items[i as int].kind) {
            Some(i)
        } else {
            None
        },
        None => None,
    }
}

/// The menu that is active once the pointer has moved onto `header`: an
/// open bar follows the pointer to another header.
pub open spec fn active_after_move(v: MenuBarView, header: Option<usize>) -> Option<usize> {
    let h = header_hit(v, header);
    if h != v.hovered_menu && v.menu_open && h is Some { h } else { v.active_menu }
}

/// The bar with entry `i` of menu `m` changed to kind `k`.
pub open spec fn with_entry_kind(v: MenuBarView, m: int, i: int, k: MenuItemKind) -> MenuBarView {
    MenuBarView {
        menus: v.menus.update(m, MenuView {
            items: v.menus[m].items.update(i, MenuItemView { kind: k, ..v.menus[m].items[i] }),
            ..v.menus[m]
        }),
        ..v
    }
}

/// The radio group of an entry, when it is a radio entry.
pub open spec fn radio_group_of(k: MenuItemKind) -> Option<Seq<char>> {
    match k {
        MenuItemKind::Radio { group, .. } => Some(group@),
        _ => None,
    }
}

/// A radio entry unselected (any other entry stays as it is).
pub open spec fn kind_radio_cleared(k: MenuItemKind) -> MenuItemKind {
    match k {
        MenuItemKind::Radio { label, group, enabled, .. } => MenuItemKind::Radio { label, selected: false, group, enabled },
        other => other,
    }
}

/// Entry `j` of a menu once its radio entry `i` is chosen: `i` becomes
/// selected and the other radio entries of its group unselected.
pub open spec fn radio_chosen_item(items: Seq<MenuItemView>, i: int, j: int) -> MenuItemView {
    if j == i {
        MenuItemView { kind: kind_radio_selected(items[i].kind), ..items[i] }
    } else if radio_group_of(items[j].kind) is Some && radio_group_of(items[j].kind) == radio_group_of(items[i].kind) {
        MenuItemView { kind: kind_radio_cleared(items[j].kind), ..items[j] }
    } else {
        items[j]
    }
}

/// The bar once radio entry `i` of menu `m` is chosen.
pub open spec fn with_radio_chosen(v: MenuBarView, m: int, i: int) -> MenuBarView {
    let items = v.menus[m].items;
    MenuBarView {
        menus: v.menus.update(m, MenuView {
            items: Seq::new(items.len(), |j: int| radio_chosen_item(items, i, j)),
            ..v.menus[m]
        }),
        ..v
    }
}

/// Whether an entry is a selected radio entry.
pub open spec fn radio_selected(k: MenuItemKind) -> bool {
    match k {
        MenuItemKind::Radio { selected, .. } => selected,
        _ => false,
    }
}

/// Choosing a radio entry leaves it the only selected entry of its group
/// in its menu, and keeps every entry's group.
pub proof fn lemma_radio_exclusive(v: MenuBarView, m: int, i: int)
    requires
        0 <= m < v.menus.len(),
        0 <= i < v.menus[m].items.len(),
        v.menus[m].items[i].kind is Radio,
    ensures
        ({
            let w = with_radio_chosen(v, m, i).menus[m].items;
            let g = radio_group_of(v.menus[m].items[i].kind);
            &&& w.len() == v.menus[m].items.len()
            &&& radio_selected(w[i].kind)
            &&& forall|j: int| 0 <= j < w.len() ==> radio_group_of((#[trigger] w[j]).kind) == radio_group_of(v.menus[m].items[j].kind)
            &&& forall|j: int| 0 <= j < w.len() && j != i && radio_group_of((#[trigger] w[j]).kind) == g ==> !radio_selected(w[j].kind)
        }),
{
}

/// Choosing entry `i` of menu `m` with the pointer: an action is run, a
/// checkbox flips, an unselected radio entry becomes selected and the
/// other entries of its radio group unselected; then the menu closes.
pub open spec fn clicked(v: MenuBarView, m: int, i: int) -> MenuBarView {
    let k = v.menus[m].items[i].kind;
    closed_bar(match k {
        MenuItemKind::Checkbox { .. } => with_entry_kind(v, m, i, kind_toggled(k)),
        MenuItemKind::Radio { selected, .. } => if !selected { with_radio_chosen(v, m, i) } else { v },
        _ => v,
    })
}

/// Choosing a checkbox entry, with the pointer or with Enter, flips that
/// entry's checked flag to the value that the `Toggled` action reports,
/// keeps its id, label and enabled flag, closes the menu, and leaves every
/// other entry and every menu's label as they were.
pub proof fn lemma_choice_flips_checkbox(v: MenuBarView, m: int, i: int, a: MenuAction, by_pointer: bool)
    requires
        0 <= m < v.menus.len(),
        0 <= i < v.menus[m].items.len(),
        v.menus[m].items[i].kind is Checkbox,
        choice_action(v, m, i, a, by_pointer),
    ensures
        ({
            let w = if by_pointer { clicked(v, m, i) } else { entered(v, m, i) };
            let old_entry = v.menus[m].items[i];
            &&& !w.menu_open
            &&& w.menus.len() == v.menus.len()
            &&& forall|n: int| 0 <= n < v.menus.len() ==> (#[trigger] w.menus[n]).label == v.menus[n].label
                && w.menus[n].items.len() == v.menus[n].items.len()
            &&& forall|n: int, j: int| 0 <= n < v.menus.len() && 0 <= j < v.menus[n].items.len() && (n != m || j != i)
                ==> #[trigger] w.menus[n].items[j] == v.menus[n].items[j]
            &&& w.menus[m].items[i].id == old_entry.id
            &&& (old_entry.kind matches MenuItemKind::Checkbox { label, checked, enabled }
                && a matches MenuAction::Toggled { menu, item, checked: reported }
                && menu == m && item == i
                && reported == !checked
                && w.menus[m].items[i].kind == (MenuItemKind::Checkbox { label, checked: reported, enabled }))
        }),
{
    let w = if by_pointer { clicked(v, m, i) } else { entered(v, m, i) };
    assert forall|n: int, j: int| 0 <= n < v.menus.len() && 0 <= j < v.menus[n].items.len() && (n != m || j != i)
        implies #[trigger] w.menus[n].items[j] == v.menus[n].items[j] by {
        if n == m {
            assert(w.menus[n].items[j] == v.menus[n].items[j]);
        }
    }
}

/// Choosing entry `i` of menu `m` with Enter: an action is run, a
/// checkbox flips; then the menu closes.
pub open spec fn entered(v: MenuBarView, m: int, i: int) -> MenuBarView {
    let k = v.menus[m].items[i].kind;
    closed_bar(match k {
        MenuItemKind::Checkbox { .. } => with_entry_kind(v, m, i, kind_toggled(k)),
        _ => v,
    })
}

/// The action that choosing entry `i` of menu `m` asks for; radio entries
/// are chosen only with the pointer.
pub open spec fn choice_action(v: MenuBarView, m: int, i: int, a: MenuAction, by_pointer: bool) -> bool {
    match v.menus[m].items[i].kind {
        MenuItemKind::Action { .. } => a matches MenuAction::Activate { menu, item, id }
            && menu == m && item == i && id@ == v.menus[m].items[i].id,
        MenuItemKind::Checkbox { checked, .. } => a matches MenuAction::Toggled { menu, item, checked: c }
            && menu == m && item == i && c == !checked,
        MenuItemKind::Radio { selected, .. } => if by_pointer && !selected {
            a matches MenuAction::RadioSelected { menu, item } && menu == m && item == i
        } else {
            a is Nothing
        },
        _ => a is Nothing,
    }
}

impl MenuBar {
    /// Whether the active menu and the hovered entry exist (see
    /// `menu_bar_wf`); the bar's own operations keep this so.
    pub fn well_formed(&self) -> (r: bool)
        ensures
            r == menu_bar_wf(self@),
    {
        match self.active_menu {
            Some(m) => {
                if m >= self.menus.len() {
                    return false;
                }
                assert(self.menus@[m as int]@ == self@.menus[m as int]);
                match self.hovered_item {
                    Some(i) => i < self.menus[m].items.len(),
                    None => true,
                }
            },
            None => self.hovered_item.is_none(),
        }
    }

    /// An empty bar with its menu closed.
    pub fn new(ids: &mut WidgetIds) -> (r: Self)
        ensures
            r@.base.id == old(ids)@,
            final(ids)@ == succ_id(old(ids)@),
            r@.base.classes == seq!["menu-bar"@],
            r@.base.element_id is None,
            r@.base.state == cleared_state(),
            r@.menus.len() == 0,
            r@.active_menu is None,
            r@.hovered_menu is None,
            r@.hovered_item is None,
            !r@.menu_open,
            menu_bar_wf(r@),
    {
        MenuBar {
            base: WidgetBase::new(ids).with_class("menu-bar"),
            menus: Vec::new(),
            active_menu: None,
            hovered_menu: None,
            hovered_item: None,
            menu_open: false,
        }
    }

    /// Append a menu.
    pub fn menu(self, menu: Menu) -> (r: Self)
        ensures
            r@ == (MenuBarView { menus: self@.menus.push(menu@), ..self@ }),
            menu_bar_wf(self@) ==> menu_bar_wf(r@),
    {
        let mut b = self;
        b.menus.push(menu);
        assert(menus_view(b.menus@) =~= self@.menus.push(menu@));
        b
    }

    /// Add a CSS class.
    pub fn class(self, class: &str) -> (r: Self)
        ensures
            r@ == (MenuBarView { base: BaseView { classes: added(self@.base.classes, class@), ..self@.base }, ..self@ }),
    {
        let mut b = self;
        b.base.classes.add(class);
        b
    }

    /// The menus.
    pub fn menus(&self) -> (r: &[Menu])
        ensures
            menus_view(r@) == self@.menus,
    {
        self.menus.as_slice()
    }

    /// The active menu, if any.
    pub fn active_menu(&self) -> (r: Option<usize>)
        ensures
            r == self@.active_menu,
    {
        self.active_menu
    }

    /// The hovered entry of the active menu, if any.
    pub fn hovered_item(&self) -> (r: Option<usize>)
        ensures
            r == self@.hovered_item,
    {
        self.hovered_item
    }

    /// Whether a menu is open.
    pub fn is_menu_open(&self) -> (r: bool)
        ensures
            r == self@.menu_open,
    {
        self.menu_open
    }

    /// Close the open menu.
    pub fn close_menu(&mut self)
        ensures
            final(self)@ == closed_bar(old(self)@),
            menu_bar_wf(final(self)@),
    {
        self.menu_open = false;
        self.active_menu = None;
        self.hovered_item = None;
    }

    /// The menu that will be active after the pointer moves onto `header`
    /// (see `active_after_move`): the one whose dropdown a move is then
    /// tested against.
    pub fn menu_after_move(&self, header: Option<usize>) -> (r: Option<usize>)
        ensures
            r == active_after_move(self@, header),
    {
        let h: Option<usize> = match header {
            Some(x) => if x < self.menus.len() { Some(x) } else { None },
            None => None,
        };
        if h != self.hovered_menu && self.menu_open && h.is_some() { h } else { self.active_menu }
    }

    /// Changes the kind of entry `i` of menu `m`.
    fn set_entry_kind(&mut self, m: usize, i: usize, k: MenuItemKind)
        requires
            m < old(self)@.menus.len(),
            i < old(self)@.menus[m as int].items.len(),
        ensures
            final(self)@ == with_entry_kind(old(self)@, m as int, i as int, k),
    {
        let ghost v = self@;
        let mut menu = self.menus.remove(m);
        let item = menu.items.remove(i);
        let MenuItem { id, .. } = item;
        menu.items.insert(i, MenuItem { id, kind: k });
        assert(menu_items_view(menu.items@) =~= v.menus[m as int].items.update(i as int,
            MenuItemView { kind: k, ..v.menus[m as int].items[i as int] }));
        self.menus.insert(m, menu);
        assert(menus_view(self.menus@) =~= with_entry_kind(v, m as int, i as int, k).menus);
    }

    /// Chooses radio entry `i` of menu `m`: it becomes selected, and the
    /// other radio entries of its group unselected.
    fn choose_radio(&mut self, m: usize, i: usize)
        requires
            m < old(self)@.menus.len(),
            i < old(self)@.menus[m as int].items.len(),
            old(self)@.menus[m as int].items[i as int].kind is Radio,
        ensures
            final(self)@ == with_radio_chosen(old(self)@, m as int, i as int),
    {
        let ghost v = self@;
        let ghost items = v.menus[m as int].items;
        assert(self.menus@[m as int]@ == v.menus[m as int]);
        let n = self.menus[m].items.len();
        let group: String = match &self.menus[m].items[i].kind {
            MenuItemKind::Radio { group, .. } => group.clone(),
            _ => String::new(),
        };
        assert(radio_group_of(items[i as int].kind) == Some(group@));
        assert(self@ == (MenuBarView {
            menus: v.menus.update(m as int, MenuView {
                items: Seq::new(n as nat, |k: int| if k < 0 { radio_chosen_item(items, i as int, k) } else { items[k] }),
                ..v.menus[m as int]
            }),
            ..v
        })) by {
            assert(Seq::new(n as nat, |k: int| if k < 0 { radio_chosen_item(items, i as int, k) } else { items[k] }) =~= items);
            assert(v.menus.update(m as int, MenuView { items, ..v.menus[m as int] }) =~= v.menus);
        }
        let mut j: usize = 0;
        while j < n
            invariant
                j <= n,
                m < self@.menus.len(),
                n == items.len(),
                i < n,
                v.menus.len() == self@.menus.len(),
                items == v.menus[m as int].items,
                radio_group_of(items[i as int].kind) == Some(group@),
                self@ == (MenuBarView {
                    menus: v.menus.update(m as int, MenuView {
                        items: Seq::new(n as nat, |k: int| if k < j { radio_chosen_item(items, i as int, k) } else { items[k] }),
                        ..v.menus[m as int]
                    }),
                    ..v
                }),
            decreases n - j,
        {
            let ghost cur = self@;
            assert(self.menus@[m as int]@ == cur.menus[m as int]);
            assert(cur.menus[m as int].items.len() == n);
            assert(self.menus@[m as int].items@.len() == n);
            assert(cur.menus[m as int].items[j as int] == items[j as int]);
            assert(self.menus@[m as int].items@[j as int]@ == items[j as int]);
            let new_kind: Option<MenuItemKind> = match &self.menus[m].items[j].kind {
                MenuItemKind::Radio { label, group: g, enabled, .. } => {
                    if j == i {
                        Some(MenuItemKind::Radio { label: label.clone(), selected: true, group: g.clone(), enabled: *enabled })
                    } else if str_eq(g.as_str(), group.as_str()) {
                        Some(MenuItemKind::Radio { label: label.clone(), selected: false, group: g.clone(), enabled: *enabled })
                    } else {
                        None
                    }
                },
                _ => None,
            };
            match new_kind {
                Some(k) => {
                    assert(MenuItemView { kind: k, ..items[j as int] } == radio_chosen_item(items, i as int, j as int));
                    self.set_entry_kind(m, j, k);
                },
                None => {
                    assert(items[j as int] == radio_chosen_item(items, i as int, j as int));
                },
            }
            proof {
                let next = Seq::new(n as nat, |k: int| if k < j + 1 { radio_chosen_item(items, i as int, k) } else { items[k] });
                assert(self@.menus[m as int].items =~= next);
                assert(self@.menus =~= v.menus.update(m as int, MenuView { items: next, ..v.menus[m as int] }));
            }
            j = j + 1;
        }
        assert(Seq::new(n as nat, |k: int| if k < n { radio_chosen_item(items, i as int, k) } else { items[k] })
            =~= Seq::new(items.len(), |k: int| radio_chosen_item(items, i as int, k)));
    }

    /// Chooses entry `i` of menu `m` (see `clicked`, `entered` and
    /// `choice_action`) and closes the menu.
    fn choose_entry(&mut self, m: usize, i: usize, by_pointer: bool) -> (r: MenuAction)
        requires
            m < old(self)@.menus.len(),
            i < old(self)@.menus[m as int].items.len(),
        ensures
            final(self)@ == (if by_pointer { clicked(old(self)@, m as int, i as int) } else { entered(old(self)@, m as int, i as int) }),
            choice_action(old(self)@, m as int, i as int, r, by_pointer),
    {
        let ghost v = self@;
        let action = match &self.menus[m].items[i].kind {
            MenuItemKind::Action { .. } => MenuAction::Activate { menu: m, item: i, id: self.menus[m].items[i].id.clone() },
            MenuItemKind::Checkbox { checked, .. } => MenuAction::Toggled { menu: m, item: i, checked: !*checked },
            MenuItemKind::Radio { selected, .. } => if by_pointer && !*selected {
                MenuAction::RadioSelected { menu: m, item: i }
            } else {
                MenuAction::Nothing
            },
            _ => MenuAction::Nothing,
        };
        let radio_pick = match &self.menus[m].items[i].kind {
            MenuItemKind::Radio { selected, .. } => by_pointer && !*selected,
            _ => false,
        };
        let new_kind: Option<MenuItemKind> = match &self.menus[m].items[i].kind {
            MenuItemKind::Checkbox { label, checked, enabled } =>
                Some(MenuItemKind::Checkbox { label: label.clone(), checked: !*checked, enabled: *enabled }),
            _ => None,
        };
        match new_kind {
            Some(k) => {
                self.set_entry_kind(m, i, k);
            },
            None => {},
        }
        if radio_pick {
            self.choose_radio(m, i);
        }
        self.close_menu();
        action
    }
    /// The entry keyboard navigation moves to in menu `m` from entry
    /// `current` (see `nav_scan`).
    fn nav_target(&self, m: usize, current: usize, forward: bool) -> (r: usize)
        requires
            m < self@.menus.len(),
            current < self@.menus[m as int].items.len(),
        ensures
            r == nav_scan(choosable(self@.menus[m as int].items), current as int, forward, 1),
            r < self@.menus[m as int].items.len(),
    {
        let ghost g = choosable(self@.menus[m as int].items);
        let n = self.menus[m].items.len();
        proof {
            lemma_small_mod(current as nat, n as nat);
            lemma_ring_step(current as int, 0, n as int);
        }
        let mut idx: usize = if forward { (current + 1) % n } else if current == 0 { n - 1 } else { current - 1 };
        let mut j: usize = 0;
        while j < n
            invariant
                j <= n,
                m < self@.menus.len(),
                n == self@.menus[m as int].items.len(),
                g == choosable(self@.menus[m as int].items),
                g.len() == n,
                idx == ring_step(current as int, j + 1, n as int, forward),
                idx < n,
                j < n ==> nav_scan(g, current as int, forward, 1) == nav_scan(g, current as int, forward, j + 1),
                j == n ==> nav_scan(g, current as int, forward, 1) == ring_step(current as int, 1, n as int, forward),
            decreases n - j,
        {
            assert(self.menus@[m as int]@.items[idx as int] == self.menus@[m as int].items@[idx as int]@);
            if self.menus[m].items[idx].is_enabled() {
                assert(g[idx as int]);
                return idx;
            }
            proof {
                lemma_ring_step(current as int, j + 1, n as int);
                assert(!g[ring_step(current as int, j + 1, n as int, forward)]);
                assert(nav_scan(g, current as int, forward, j + 1) == nav_scan(g, current as int, forward, j + 2));
                if j + 1 == n {
                    assert(nav_scan(g, current as int, forward, j + 2) == ring_step(current as int, 1, n as int, forward));
                }
            }
            idx = if forward { (idx + 1) % n } else if idx == 0 { n - 1 } else { idx - 1 };
            j = j + 1;
        }
        proof {
            lemma_ring_step(current as int, 0, n as int);
        }
        idx
    }
    /// Handles a key press: Escape closes the open menu; Left and Right
    /// move to the previous or next menu, wrapping around; Up and Down move
    /// to the previous or next choosable entry, wrapping around (see
    /// `nav_scan`); Enter chooses the hovered entry when it can be chosen
    /// (see `entered`).
    pub fn handle_key(&mut self, ev: &KeyEvent, ctx: &mut EventContext) -> (r: (EventResult, MenuAction))
        requires
            menu_bar_wf(old(self)@),
        ensures
            menu_bar_wf(final(self)@),
            final(ctx).focus == old(ctx).focus,
            ({
                let v = old(self)@;
                let live = ev.kind == KeyEventKind::Down && v.menu_open && v.active_menu is Some;
                let m = v.active_menu->0;
                let n = if v.active_menu is Some { v.menus[m as int].items.len() } else { 0 };
                if !live {
                    if ev.kind == KeyEventKind::Down && ev.key == Key::Escape && v.menu_open {
                        &&& final(self)@ == closed_bar(v)
                        &&& r.0 == EventResult::Handled && r.1 is Nothing
                        &&& final(ctx).should_redraw
                    } else {
                        &&& final(self)@ == v
                        &&& r.0 == EventResult::Ignored && r.1 is Nothing
                        &&& final(ctx).should_redraw == old(ctx).should_redraw
                    }
                } else {
                    match ev.key {
                        Key::Escape => {
                            &&& final(self)@ == closed_bar(v)
                            &&& r.0 == EventResult::Handled && r.1 is Nothing
                            &&& final(ctx).should_redraw
                        },
                        Key::Left | Key::Right => {
                            let len = v.menus.len();
                            let next = if ev.key == Key::Left {
                                if m == 0 { (len - 1) as usize } else { (m - 1) as usize }
                            } else {
                                ((m + 1) % (len as int)) as usize
                            };
                            &&& final(self)@ == (MenuBarView { active_menu: Some(next), hovered_item: None, ..v })
                            &&& r.0 == EventResult::Handled && r.1 is Nothing
                            &&& final(ctx).should_redraw
                        },
                        Key::Up | Key::Down => if n > 0 {
                            let g = choosable(v.menus[m as int].items);
                            let target = if ev.key == Key::Up {
                                nav_scan(g, if v.hovered_item is Some { v.hovered_item->0 as int } else { 0 }, false, 1)
                            } else {
                                nav_scan(g, if v.hovered_item is Some { v.hovered_item->0 as int } else { n - 1 }, true, 1)
                            };
                            &&& final(self)@ == (MenuBarView { hovered_item: Some(target as usize), ..v })
                            &&& r.0 == EventResult::Handled && r.1 is Nothing
                            &&& final(ctx).should_redraw
                        } else {
                            &&& final(self)@ == v
                            &&& r.0 == EventResult::Ignored && r.1 is Nothing
                            &&& final(ctx).should_redraw == old(ctx).should_redraw
                        },
                        Key::Enter => if v.hovered_item is Some
                            && kind_enabled(v.menus[m as int].items[v.hovered_item->0 as int].kind) {
                            let i = v.hovered_item->0 as int;
                            &&& final(self)@ == entered(v, m as int, i)
                            &&& choice_action(v, m as int, i, r.1, false)
                            &&& r.0 == EventResult::Handled
                            &&& final(ctx).should_redraw
                        } else {
                            &&& final(self)@ == v
                            &&& r.0 == EventResult::Ignored && r.1 is Nothing
                            &&& final(ctx).should_redraw == old(ctx).should_redraw
                        },
                        _ => {
                            &&& final(self)@ == v
                            &&& r.0 == EventResult::Ignored && r.1 is Nothing
                            &&& final(ctx).should_redraw == old(ctx).should_redraw
                        },
                    }
                }
            }),
    {
        if ev.kind != KeyEventKind::Down {
            return (EventResult::Ignored, MenuAction::Nothing);
        }
        if ev.key == Key::Escape {
            if self.menu_open {
                self.close_menu();
                ctx.request_redraw();
                return (EventResult::Handled, MenuAction::Nothing);
            }
            return (EventResult::Ignored, MenuAction::Nothing);
        }
        if !self.menu_open {
            return (EventResult::Ignored, MenuAction::Nothing);
        }
        let m = match self.active_menu {
            Some(m) => m,
            None => {
                return (EventResult::Ignored, MenuAction::Nothing);
            },
        };
        match ev.key {
            Key::Left | Key::Right => {
                let len = self.menus.len();
                let next = if ev.key == Key::Left {
                    if m == 0 { len - 1 } else { m - 1 }
                } else {
                    (m + 1) % len
                };
                self.active_menu = Some(next);
                self.hovered_item = None;
                ctx.request_redraw();
                (EventResult::Handled, MenuAction::Nothing)
            },
            Key::Up | Key::Down => {
                let n = self.menus[m].items.len();
                if n > 0 {
                    let target = if ev.key == Key::Up {
                        let current = match self.hovered_item { Some(i) => i, None => 0 };
                        self.nav_target(m, current, false)
                    } else {
                        let current = match self.hovered_item { Some(i) => i, None => n - 1 };
                        self.nav_target(m, current, true)
                    };
                    self.hovered_item = Some(target);
                    ctx.request_redraw();
                    (EventResult::Handled, MenuAction::Nothing)
                } else {
                    (EventResult::Ignored, MenuAction::Nothing)
                }
            },
            Key::Enter => {
                match self.hovered_item {
                    Some(i) => {
                        if self.menus[m].items[i].is_enabled() {
                            let a = self.choose_entry(m, i, false);
                            ctx.request_redraw();
                            (EventResult::Handled, a)
                        } else {
                            (EventResult::Ignored, MenuAction::Nothing)
                        }
                    },
                    None => (EventResult::Ignored, MenuAction::Nothing),
                }
            },
            _ => (EventResult::Ignored, MenuAction::Nothing),
        }
    }

    /// Handles a pointer event. `header` is the menu header under the
    /// pointer; `in_dropdown` and `row` say whether the pointer lies in the
    /// dropdown of the active menu (for a move: of `menu_after_move`) and
    /// on which of its entries. A move hovers headers, switches an open bar
    /// to the hovered menu and hovers choosable entries; a left press on a
    /// header opens its menu (or closes it when already open), on an entry
    /// chooses it (see `clicked`), and elsewhere closes the open menu; a
    /// leave drops the header hover of a closed bar.
    pub fn handle_pointer(&mut self, ev: PointerEvent, header: Option<usize>, in_dropdown: bool, row: Option<usize>, ctx: &mut EventContext) -> (r: (EventResult, MenuAction))
        requires
            menu_bar_wf(old(self)@),
        ensures
            menu_bar_wf(final(self)@),
            final(ctx).focus == old(ctx).focus,
            ({
                let v = old(self)@;
                let h = header_hit(v, header);
                match ev.kind {
                    MouseEventKind::Move => {
                        let switched = h != v.hovered_menu;
                        let v1 = if switched {
                            MenuBarView {
                                hovered_menu: h,
                                active_menu: if v.menu_open && h is Some { h } else { v.active_menu },
                                hovered_item: if v.menu_open && h is Some { None } else { v.hovered_item },
                                ..v
                            }
                        } else {
                            v
                        };
                        if v1.menu_open && v1.active_menu is Some && in_dropdown {
                            let e = entry_hit(v1, v1.active_menu->0, row);
                            &&& final(self)@ == (MenuBarView { hovered_item: e, ..v1 })
                            &&& r.0 == EventResult::Handled && r.1 is Nothing
                            &&& final(ctx).should_redraw == (old(ctx).should_redraw || switched || e != v1.hovered_item)
                        } else {
                            &&& final(self)@ == v1
                            &&& r.0 == EventResult::Ignored && r.1 is Nothing
                            &&& final(ctx).should_redraw == (old(ctx).should_redraw || switched)
                        }
                    },
                    MouseEventKind::Down if is_left(ev.button) => {
                        if h is Some {
                            &&& final(self)@ == (if v.menu_open && v.active_menu == h {
                                closed_bar(v)
                            } else {
                                MenuBarView { active_menu: h, menu_open: true, hovered_item: None, ..v }
                            })
                            &&& r.0 == EventResult::Handled && r.1 is Nothing
                            &&& final(ctx).should_redraw
                        } else if v.menu_open && v.active_menu is Some {
                            let m = v.active_menu->0;
                            if !in_dropdown {
                                &&& final(self)@ == closed_bar(v)
                                &&& r.0 == EventResult::Ignored && r.1 is Nothing
                                &&& final(ctx).should_redraw
                            } else if entry_hit(v, m, row) is Some {
                                let i = entry_hit(v, m, row)->0 as int;
                                &&& final(self)@ == clicked(v, m as int, i)
                                &&& choice_action(v, m as int, i, r.1, true)
                                &&& r.0 == EventResult::Handled
                                &&& final(ctx).should_redraw
                            } else {
                                &&& final(self)@ == v
                                &&& r.0 == EventResult::Ignored && r.1 is Nothing
                                &&& final(ctx).should_redraw == old(ctx).should_redraw
                            }
                        } else {
                            &&& final(self)@ == v
                            &&& r.0 == EventResult::Ignored && r.1 is Nothing
                            &&& final(ctx).should_redraw == old(ctx).should_redraw
                        }
                    },
                    MouseEventKind::Leave => {
                        let drop = v.hovered_menu is Some && !v.menu_open;
                        &&& final(self)@ == (if drop { MenuBarView { hovered_menu: None, ..v } } else { v })
                        &&& r.0 == EventResult::Ignored && r.1 is Nothing
                        &&& final(ctx).should_redraw == (old(ctx).should_redraw || drop)
                    },
                    _ => {
                        &&& final(self)@ == v
                        &&& r.0 == EventResult::Ignored && r.1 is Nothing
                        &&& final(ctx).should_redraw == old(ctx).should_redraw
                    },
                }
            }),
    {
        let h: Option<usize> = match header {
            Some(x) => if x < self.menus.len() { Some(x) } else { None },
            None => None,
        };
        match ev.kind {
            MouseEventKind::Move => {
                if h != self.hovered_menu {
                    self.hovered_menu = h;
                    if self.menu_open && h.is_some() {
                        self.active_menu = h;
                        self.hovered_item = None;
                    }
                    ctx.request_redraw();
                }
                if self.menu_open && in_dropdown {
                    if let Some(m) = self.active_menu {
                        let e: Option<usize> = match row {
                            Some(i) => if i < self.menus[m].items.len() && self.menus[m].items[i].is_enabled() {
                                Some(i)
                            } else {
                                None
                            },
                            None => None,
                        };
                        if e != self.hovered_item {
                            self.hovered_item = e;
                            ctx.request_redraw();
                        }
                        return (EventResult::Handled, MenuAction::Nothing);
                    }
                }
                (EventResult::Ignored, MenuAction::Nothing)
            },
            MouseEventKind::Down => {
                if !left_button(ev.button) {
                    return (EventResult::Ignored, MenuAction::Nothing);
                }
                if let Some(i) = h {
                    if self.menu_open && self.active_menu == Some(i) {
                        self.close_menu();
                    } else {
                        self.active_menu = Some(i);
                        self.menu_open = true;
                        self.hovered_item = None;
                    }
                    ctx.request_redraw();
                    return (EventResult::Handled, MenuAction::Nothing);
                }
                if self.menu_open {
                    if let Some(m) = self.active_menu {
                        if in_dropdown {
                            let e: Option<usize> = match row {
                                Some(i) => if i < self.menus[m].items.len() && self.menus[m].items[i].is_enabled() {
                                    Some(i)
                                } else {
                                    None
                                },
                                None => None,
                            };
                            if let Some(i) = e {
                                let a = self.choose_entry(m, i, true);
                                ctx.request_redraw();
                                return (EventResult::Handled, a);
                            }
                        } else {
                            self.close_menu();
                            ctx.request_redraw();
                        }
                    }
                }
                (EventResult::Ignored, MenuAction::Nothing)
            },
            MouseEventKind::Leave => {
                if self.hovered_menu.is_some() && !self.menu_open {
                    self.hovered_menu = None;
                    ctx.request_redraw();
                }
                (EventResult::Ignored, MenuAction::Nothing)
            },
            _ => (EventResult::Ignored, MenuAction::Nothing),
        }
    }
}

impl Widget for MenuBar {
    fn id(&self) -> (r: WidgetId)
        ensures
            r == self@.base.id,
    {
        self.base.id
    }

    fn widget_type_name(&self) -> (r: &'static str)
        ensures
            r@ == "menu-bar"@,
    {
        "menu-bar"
    }

    fn element_id(&self) -> (r: Option<&str>)
        ensures
            match r {
                Some(s) => self@.base.element_id == Some(s@),
                None => self@.base.element_id is None,
            },
    {
        self.base.element_id_str()
    }

    fn classes(&self) -> (r: &ClassList)
        ensures
            r@ == self@.base.classes,
    {
        &self.base.classes
    }

    fn state(&self) -> (r: WidgetState)
        ensures
            r == self@.base.state,
    {
        self.base.state
    }
}

impl MenuBar {
    /// The background of header `i`: accented when its menu is active,
    /// muted when the pointer is over it, else none.
    pub fn header_background(&self, i: usize) -> (r: ColorChoice)
        ensures
            r == (if self@.active_menu == Some(i) {
                ColorChoice { color: ThemeColor::Accent, adjust: ColorAdjust::AlphaPercent(20) }
            } else if self@.hovered_menu == Some(i) {
                ColorChoice { color: ThemeColor::Muted, adjust: ColorAdjust::AlphaPercent(50) }
            } else {
                ColorChoice { color: ThemeColor::Transparent, adjust: ColorAdjust::Plain }
            }),
    {
        if self.active_menu == Some(i) {
            ColorChoice { color: ThemeColor::Accent, adjust: ColorAdjust::AlphaPercent(20) }
        } else if self.hovered_menu == Some(i) {
            ColorChoice { color: ThemeColor::Muted, adjust: ColorAdjust::AlphaPercent(50) }
        } else {
            ColorChoice { color: ThemeColor::Transparent, adjust: ColorAdjust::Plain }
        }
    }

    /// The text color of header `i`: accented when its menu is active.
    pub fn header_text_color(&self, i: usize) -> (r: ThemeColor)
        ensures
            r == (if self@.active_menu == Some(i) { ThemeColor::Accent } else { ThemeColor::Foreground }),
    {
        if self.active_menu == Some(i) { ThemeColor::Accent } else { ThemeColor::Foreground }
    }

    /// The background of entry `i` of menu `m`: accented when the pointer is
    /// over it and it can be chosen, else none.
    pub fn entry_background(&self, m: usize, i: usize) -> (r: ColorChoice)
        requires
            m < self@.menus.len(),
            i < self@.menus[m as int].items.len(),
        ensures
            r == (if self@.hovered_item == Some(i) && kind_enabled(self@.menus[m as int].items[i as int].kind) {
                ColorChoice { color: ThemeColor::Accent, adjust: ColorAdjust::AlphaPercent(20) }
            } else {
                ColorChoice { color: ThemeColor::Transparent, adjust: ColorAdjust::Plain }
            }),
    {
        proof {
            assert(self.menus@[m as int]@.items[i as int] == self.menus@[m as int].items@[i as int]@);
        }
        if self.hovered_item == Some(i) && self.menus[m].items[i].is_enabled() {
            ColorChoice { color: ThemeColor::Accent, adjust: ColorAdjust::AlphaPercent(20) }
        } else {
            ColorChoice { color: ThemeColor::Transparent, adjust: ColorAdjust::Plain }
        }
    }

    /// The text color of entry `i` of menu `m`: muted when it cannot be
    /// chosen, accented under the pointer, else the foreground.
    pub fn entry_text_color(&self, m: usize, i: usize) -> (r: ThemeColor)
        requires
            m < self@.menus.len(),
            i < self@.menus[m as int].items.len(),
        ensures
            r == (if !kind_enabled(self@.menus[m as int].items[i as int].kind) {
                ThemeColor::MutedForeground
            } else if self@.hovered_item == Some(i) {
                ThemeColor::Accent
            } else {
                ThemeColor::Foreground
            }),
    {
        proof {
            assert(self.menus@[m as int]@.items[i as int] == self.menus@[m as int].items@[i as int]@);
        }
        if !self.menus[m].items[i].is_enabled() {
            ThemeColor::MutedForeground
        } else if self.hovered_item == Some(i) {
            ThemeColor::Accent
        } else {
            ThemeColor::Foreground
        }
    }
}

} // verus!
