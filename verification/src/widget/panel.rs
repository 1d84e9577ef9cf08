//! Panel widget: a bar along one edge of the screen.
use vstd::prelude::*;

use super::{BaseView, Widget, WidgetBase, WidgetId, WidgetIds, succ_id};
use crate::css::{added, cleared_state, ClassList, WidgetState};
use crate::text::owned;

verus! {

/// The screen edge a panel sits on.
#[derive(Debug, Clone, Copy, PartialEq, Eq, Structural)]
pub enum PanelPosition {
    Top,
    Bottom,
    Left,
    Right,
}

impl Default for PanelPosition {
    fn default() -> (r: Self)
        ensures
            r == PanelPosition::Bottom,
    {
        PanelPosition::Bottom
    }
}

/// When a panel hides itself.
#[derive(Debug, Clone, Copy, PartialEq, Eq, Structural)]
pub enum PanelAutohide {
    Never,
    Always,
    InFullscreen,
    Smart,
}

impl Default for PanelAutohide {
    fn default() -> (r: Self)
        ensures
            r == PanelAutohide::Never,
    {
        PanelAutohide::Never
    }
}

/// A panel on the top or bottom edge runs horizontally.
pub open spec fn horizontal(p: PanelPosition) -> bool {
    p == PanelPosition::Top || p == PanelPosition::Bottom
}

/// Abstract contents of a `Panel`.
pub struct PanelView {
    pub base: BaseView,
    pub position: PanelPosition,
    pub blur: bool,
    pub autohide: PanelAutohide,
    pub is_hidden: bool,
    pub shadow: bool,
    pub monitor: usize,
    pub extend_to_edges: bool,
}

/// A panel along a screen edge.
#[derive(Debug)]
pub struct Panel {
    base: WidgetBase,
    position: PanelPosition,
    blur: bool,
    autohide: PanelAutohide,
    is_hidden: bool,
    shadow: bool,
    monitor: usize,
    extend_to_edges: bool,
}

impl View for Panel {
    type V = PanelView;

    closed spec fn view(&self) -> PanelView {
        PanelView {
            base: self.base@,
            position: self.position,
            blur: self.blur,
            autohide: self.autohide,
            is_hidden: self.is_hidden,
            shadow: self.shadow,
            monitor: self.monitor,
            extend_to_edges: self.extend_to_edges,
        }
    }
}

impl Panel {
    /// A shown panel at the bottom of the first monitor, blurred, with a
    /// shadow, spanning the edge and never hiding itself.
    pub fn new(ids: &mut WidgetIds) -> (r: Self)
        ensures
            r@.base.id == old(ids)@,
            final(ids)@ == succ_id(old(ids)@),
            r@.base.classes == seq!["panel"@],
            r@.base.element_id is None,
            r@.base.state == cleared_state(),
            r@.position == PanelPosition::Bottom,
            r@.blur,
            r@.autohide == PanelAutohide::Never,
            !r@.is_hidden,
            r@.shadow,
            r@.monitor == 0,
            r@.extend_to_edges,
    {
        Panel {
            base: WidgetBase::new(ids).with_class("panel"),
            position: PanelPosition::Bottom,
            blur: true,
            autohide: PanelAutohide::Never,
            is_hidden: false,
            shadow: true,
            monitor: 0,
            extend_to_edges: true,
        }
    }

    /// Set the edge.
    pub fn position(self, pos: PanelPosition) -> (r: Self)
        ensures
            r@ == (PanelView { position: pos, ..self@ }),
    {
        Panel { position: pos, ..self }
    }

    /// Blur what lies behind or not.
    pub fn blur(self, enabled: bool) -> (r: Self)
        ensures
            r@ == (PanelView { blur: enabled, ..self@ }),
    {
        Panel { blur: enabled, ..self }
    }

    /// Set when the panel hides itself.
    pub fn autohide(self, behavior: PanelAutohide) -> (r: Self)
        ensures
            r@ == (PanelView { autohide: behavior, ..self@ }),
    {
        Panel { autohide: behavior, ..self }
    }

    /// Draw a shadow or not.
    pub fn shadow(self, enabled: bool) -> (r: Self)
        ensures
            r@ == (PanelView { shadow: enabled, ..self@ }),
    {
        Panel { shadow: enabled, ..self }
    }

    /// Set the monitor.
    pub fn monitor(self, index: usize) -> (r: Self)
        ensures
            r@ == (PanelView { monitor: index, ..self@ }),
    {
        Panel { monitor: index, ..self }
    }

    /// Span the whole edge or not.
    pub fn extend_edges(self, extend: bool) -> (r: Self)
        ensures
            r@ == (PanelView { extend_to_edges: extend, ..self@ }),
    {
        Panel { extend_to_edges: extend, ..self }
    }

    /// Add a CSS class.
    pub fn class(self, class: &str) -> (r: Self)
        ensures
            r@ == (PanelView { base: BaseView { classes: added(self@.base.classes, class@), ..self@.base }, ..self@ }),
    {
        let mut p = self;
        p.base.classes.add(class);
        p
    }

    /// Set the element ID.
    pub fn id(self, id: &str) -> (r: Self)
        ensures
            r@ == (PanelView { base: BaseView { element_id: Some(id@), ..self@.base }, ..self@ }),
    {
        let mut p = self;
        p.base.element_id = Some(owned(id));
        p
    }

    /// Whether the panel runs horizontally.
    pub fn is_horizontal(&self) -> (r: bool)
        ensures
            r == horizontal(self@.position),
    {
        match self.position {
            PanelPosition::Top | PanelPosition::Bottom => true,
            _ => false,
        }
    }

    /// Show the panel.
    pub fn show(&mut self)
        ensures
            final(self)@ == (PanelView { is_hidden: false, ..old(self)@ }),
    {
        self.is_hidden = false;
    }

    /// Hide the panel.
    pub fn hide_panel(&mut self)
        ensures
            final(self)@ == (PanelView { is_hidden: true, ..old(self)@ }),
    {
        self.is_hidden = true;
    }

    /// Whether the panel is hidden.
    pub fn is_hidden(&self) -> (r: bool)
        ensures
            r == self@.is_hidden,
    {
        self.is_hidden
    }

    /// Which way the shadow falls: away from the panel's edge (positive
    /// towards the bottom or right).
    pub fn shadow_direction(&self) -> (r: i8)
        ensures
            r == (if self@.position == PanelPosition::Top || self@.position == PanelPosition::Left { 1i8 } else { -1i8 }),
    {
        match self.position {
            PanelPosition::Top | PanelPosition::Left => 1,
            _ => -1,
        }
    }
}

impl Widget for Panel {
    fn id(&self) -> (r: WidgetId)
        ensures
            r == self@.base.id,
    {
        self.base.id
    }

    fn widget_type_name(&self) -> (r: &'static str)
        ensures
            r@ == "panel"@,
    {
        "panel"
    }

    fn element_id(&self) -> (r: Option<&str>)
        ensures
            match r {
                Some(s) => self@.base.element_id == Some(s@),
                None => self@.base.element_id is None,
            },
    {
        self.base.element_id_str()
    }

    fn classes(&self) -> (r: &ClassList)
        ensures
            r@ == self@.base.classes,
    {
        &self.base.classes
    }

    fn state(&self) -> (r: WidgetState)
        ensures
            r == self@.base.state,
    {
        self.base.state
    }
}

} // verus!
