//! The widget system: identifiers, the state every widget shares, the
//! context that event handling reports to, and the widgets themselves.
use vstd::prelude::*;

use crate::css::{cleared_state, ClassList, WidgetState};
use crate::text::{opt_view, owned};

pub mod action_center;
pub mod address_bar;
pub mod app_grid;
pub mod avatar;
pub mod battery_indicator;
pub mod bookmark_bar;
pub mod browser_tab;
pub mod browser_toolbar;
pub mod button;
pub mod calendar;
pub mod card;
pub mod chat_window;
pub mod checkbox;
pub mod clock;
pub mod connection_card;
pub mod context_menu;
pub mod data_table;
pub mod desktop;
pub mod download_item;
pub mod dropdown;
pub mod find_bar;
pub mod icon_button;
pub mod label;
pub mod list_view;
pub mod menu_bar;
pub mod navigation_bar;
pub mod network_indicator;
pub mod notification;
pub mod panel;
pub mod password_field;
pub mod piece_map;
pub mod pointer;
pub mod scroll_view;
pub mod search_bar;
pub mod server_list;
pub mod slider;
pub mod speed_graph;
pub mod spinner;
pub mod split_pane;
pub mod start_button;
pub mod start_menu;
pub mod switch;
pub mod system_tray;
pub mod tabs;
pub mod taskbar_button;
pub mod textfield;

verus! {

/// Unique widget identifier.
pub type WidgetId = u64;

/// The source of widget identifiers: hands out consecutive numbers,
/// starting at 1 and wrapping around after `u64::MAX`.
#[derive(Debug)]
pub struct WidgetIds {
    next: u64,
}

impl View for WidgetIds {
    type V = u64;

    closed spec fn view(&self) -> u64 {
        self.next
    }
}

/// The identifier that follows `id`.
pub open spec fn succ_id(id: u64) -> u64 {
    if id == u64::MAX { 0 } else { (id + 1) as u64 }
}

/// The identifier handed out `k` draws after `start`.
pub open spec fn nth_id(start: u64, k: nat) -> u64 {
    ((start + k) % 0x1_0000_0000_0000_0000) as u64
}

impl WidgetIds {
    /// A fresh source whose first identifier is 1.
    pub fn new() -> (r: Self)
        ensures
            r@ == 1,
    {
        WidgetIds { next: 1 }
    }
}

/// Draws the next unique widget identifier.
pub fn next_widget_id(ids: &mut WidgetIds) -> (id: WidgetId)
    ensures
        id == old(ids)@,
        final(ids)@ == succ_id(old(ids)@),
{
    let id = ids.next;
    ids.next = ids.next.wrapping_add(1);
    id
}

/// Drawing once more from a source that has handed out `nth_id(start, k)`
/// next hands out `nth_id(start, k + 1)`.
pub proof fn lemma_succ_is_next(start: u64, k: nat)
    ensures
        succ_id(nth_id(start, k)) == nth_id(start, k + 1),
{
    let m: int = 0x1_0000_0000_0000_0000;
    let a: int = start + k;
    assert(a >= 0);
    assert(a % m + 1 == m ==> (a + 1) % m == 0) by (nonlinear_arith)
        requires m == 0x1_0000_0000_0000_0000, a >= 0;
    assert(a % m + 1 < m ==> (a + 1) % m == a % m + 1) by (nonlinear_arith)
        requires m == 0x1_0000_0000_0000_0000, a >= 0;
}

/// Identifiers drawn fewer than 2^64 draws apart from one source differ:
/// within that span no identifier is handed out twice.
pub proof fn lemma_ids_distinct(start: u64, k: nat, j: nat)
    requires
        k < j,
        j - k < 0x1_0000_0000_0000_0000,
    ensures
        nth_id(start, k) != nth_id(start, j),
{
    let m: int = 0x1_0000_0000_0000_0000;
    let a: int = start + k;
    let b: int = start + j;
    assert(0 <= a < b && b - a < m ==> a % m != b % m) by (nonlinear_arith)
        requires m == 0x1_0000_0000_0000_0000;
}

/// Trait shared by all widgets: their identity and styling state.
pub trait Widget {
    /// Get the widget's unique ID.
    fn id(&self) -> WidgetId;

    /// Get the widget type name (for CSS type selectors).
    fn widget_type_name(&self) -> &'static str;

    /// Get the widget's element ID (for CSS #id selectors).
    fn element_id(&self) -> Option<&str>;

    /// Get the widget's CSS classes.
    fn classes(&self) -> &ClassList;

    /// Get the widget's current state.
    fn state(&self) -> WidgetState;
}

/// What event handling asks of its surroundings: which widget holds the
/// keyboard focus and whether the screen must be redrawn.
#[derive(Debug)]
pub struct EventContext {
    pub focus: Option<WidgetId>,
    pub should_redraw: bool,
}

impl EventContext {
    /// A context with no focused widget and no redraw requested.
    pub fn new() -> (r: Self)
        ensures
            r.focus is None,
            !r.should_redraw,
    {
        EventContext { focus: None, should_redraw: false }
    }

    /// Give the keyboard focus to `widget_id`.
    pub fn request_focus(&mut self, widget_id: WidgetId)
        ensures
            final(self).focus == Some(widget_id),
            final(self).should_redraw == old(self).should_redraw,
    {
        self.focus = Some(widget_id);
    }

    /// Drop the keyboard focus.
    pub fn release_focus(&mut self)
        ensures
            final(self).focus is None,
            final(self).should_redraw == old(self).should_redraw,
    {
        self.focus = None;
    }

    /// Ask for the screen to be redrawn.
    pub fn request_redraw(&mut self)
        ensures
            final(self).should_redraw,
            final(self).focus == old(self).focus,
    {
        self.should_redraw = true;
    }
}

impl Default for EventContext {
    fn default() -> (r: Self)
        ensures
            r.focus is None,
            !r.should_redraw,
    {
        EventContext::new()
    }
}

/// Abstract contents of a `WidgetBase`.
pub struct BaseView {
    pub id: WidgetId,
    pub element_id: Option<Seq<char>>,
    pub classes: Seq<Seq<char>>,
    pub state: WidgetState,
}

/// Fields common to all widgets.
#[derive(Debug)]
pub struct WidgetBase {
    pub id: WidgetId,
    pub element_id: Option<String>,
    pub classes: ClassList,
    pub state: WidgetState,
}

impl View for WidgetBase {
    type V = BaseView;

    open spec fn view(&self) -> BaseView {
        BaseView {
            id: self.id,
            element_id: opt_view(&self.element_id),
            classes: self.classes@,
            state: self.state,
        }
    }
}

impl WidgetBase {
    /// A base with the next identifier from `ids`, no element id, no classes
    /// and a cleared state.
    pub fn new(ids: &mut WidgetIds) -> (r: Self)
        ensures
            r@.id == old(ids)@,
            final(ids)@ == succ_id(old(ids)@),
            r@.element_id is None,
            r@.classes == Seq::<Seq<char>>::empty(),
            r@.state == cleared_state(),
    {
        WidgetBase {
            id: next_widget_id(ids),
            element_id: None,
            classes: ClassList::new(),
            state: WidgetState::new(),
        }
    }

    /// Add a CSS class.
    pub fn with_class(self, class: &str) -> (r: Self)
        ensures
            r@ == (BaseView { classes: crate::css::added(self@.classes, class@), ..self@ }),
    {
        let mut b = self;
        b.classes.add(class);
        b
    }

    /// Set the element ID.
    pub fn with_id(self, id: &str) -> (r: Self)
        ensures
            r@ == (BaseView { element_id: Some(id@), ..self@ }),
    {
        let mut b = self;
        b.element_id = Some(owned(id));
        b
    }

    /// The element ID, if any.
    pub fn element_id_str(&self) -> (r: Option<&str>)
        ensures
            match r {
                Some(s) => self@.element_id == Some(s@),
                None => self@.element_id is None,
            },
    {
        match &self.element_id {
            Some(s) => Some(s.as_str()),
            None => None,
        }
    }
}

} // verus!
