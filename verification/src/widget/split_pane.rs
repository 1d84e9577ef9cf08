//! Split pane widget: two panes side by side or stacked, with a divider
//! that can be dragged and panes that can be collapsed.
use vstd::prelude::*;

use super::{BaseView, EventContext, Widget, WidgetBase, WidgetId, WidgetIds, succ_id};
use crate::css::{added, cleared_state, ClassList, WidgetState};
use crate::event::{is_left, left_button, EventResult, MouseEventKind, PointerEvent};

verus! {

/// Whether the panes sit side by side or stacked.
#[derive(Debug, Clone, Copy, PartialEq, Eq, Structural)]
pub enum SplitOrientation {
    Horizontal,
    Vertical,
}

impl Default for SplitOrientation {
    fn default() -> (r: Self)
        ensures
            r == SplitOrientation::Horizontal,
    {
        SplitOrientation::Horizontal
    }
}

/// Abstract contents of a `SplitPane`.
pub struct SplitPaneView {
    pub base: BaseView,
    pub orientation: SplitOrientation,
    pub divider_hovered: bool,
    pub dragging: bool,
    pub collapsible: bool,
    pub first_collapsed: bool,
    pub second_collapsed: bool,
    pub show_collapse_buttons: bool,
}

/// The pane state of a split view.
#[derive(Debug)]
pub struct SplitPane {
    base: WidgetBase,
    orientation: SplitOrientation,
    divider_hovered: bool,
    dragging: bool,
    collapsible: bool,
    first_collapsed: bool,
    second_collapsed: bool,
    show_collapse_buttons: bool,
}

impl View for SplitPane {
    type V = SplitPaneView;

    closed spec fn view(&self) -> SplitPaneView {
        SplitPaneView {
            base: self.base@,
            orientation: self.orientation,
            divider_hovered: self.divider_hovered,
            dragging: self.dragging,
            collapsible: self.collapsible,
            first_collapsed: self.first_collapsed,
            second_collapsed: self.second_collapsed,
            show_collapse_buttons: self.show_collapse_buttons,
        }
    }
}

/// At most one pane is collapsed.
pub open spec fn split_wf(v: SplitPaneView) -> bool {
    !(v.first_collapsed && v.second_collapsed)
}

/// The arrow of the collapse button: it points the way the first pane
/// would move.
pub open spec fn collapse_arrow_of(v: SplitPaneView) -> Seq<char> {
    match v.orientation {
        SplitOrientation::Horizontal => if v.first_collapsed { "▶"@ } else { "◀"@ },
        SplitOrientation::Vertical => if v.first_collapsed { "▼"@ } else { "▲"@ },
    }
}

/// What the owner of a split pane is asked to do with the divider.
#[derive(Debug, Clone, Copy, PartialEq, Eq, Structural)]
pub enum DividerAction {
    Nothing,
    /// Move the divider to the pointer.
    Follow,
    /// Remember where on the divider the drag started.
    StartDrag,
}

impl SplitPane {
    /// Two expanded panes, not collapsible, in the given orientation.
    pub fn new(ids: &mut WidgetIds, orientation: SplitOrientation) -> (r: Self)
        ensures
            r@.base.id == old(ids)@,
            final(ids)@ == succ_id(old(ids)@),
            r@.base.classes == seq!["split-pane"@],
            r@.base.element_id is None,
            r@.base.state == cleared_state(),
            r@.orientation == orientation,
            !r@.divider_hovered,
            !r@.dragging,
            !r@.collapsible,
            !r@.first_collapsed,
            !r@.second_collapsed,
            !r@.show_collapse_buttons,
            split_wf(r@),
    {
        SplitPane {
            base: WidgetBase::new(ids).with_class("split-pane"),
            orientation,
            divider_hovered: false,
            dragging: false,
            collapsible: false,
            first_collapsed: false,
            second_collapsed: false,
            show_collapse_buttons: false,
        }
    }

    /// Panes side by side.
    pub fn horizontal(ids: &mut WidgetIds) -> (r: Self)
        ensures
            r@.base.id == old(ids)@,
            final(ids)@ == succ_id(old(ids)@),
            r@.orientation == SplitOrientation::Horizontal,
            r@.base.classes == seq!["split-pane"@],
            !r@.collapsible && !r@.first_collapsed && !r@.second_collapsed,
    {
        SplitPane::new(ids, SplitOrientation::Horizontal)
    }

    /// Panes stacked.
    pub fn vertical(ids: &mut WidgetIds) -> (r: Self)
        ensures
            r@.base.id == old(ids)@,
            final(ids)@ == succ_id(old(ids)@),
            r@.orientation == SplitOrientation::Vertical,
            r@.base.classes == seq!["split-pane"@],
            !r@.collapsible && !r@.first_collapsed && !r@.second_collapsed,
    {
        SplitPane::new(ids, SplitOrientation::Vertical)
    }

    /// Let the panes collapse or not.
    pub fn collapsible(self, collapsible: bool) -> (r: Self)
        ensures
            r@ == (SplitPaneView { collapsible, ..self@ }),
    {
        SplitPane { collapsible, ..self }
    }

    /// Show the collapse buttons or not.
    pub fn show_collapse_buttons(self, show: bool) -> (r: Self)
        ensures
            r@ == (SplitPaneView { show_collapse_buttons: show, ..self@ }),
    {
        SplitPane { show_collapse_buttons: show, ..self }
    }

    /// Add a CSS class.
    pub fn class(self, class: &str) -> (r: Self)
        ensures
            r@ == (SplitPaneView { base: BaseView { classes: added(self@.base.classes, class@), ..self@.base }, ..self@ }),
    {
        let mut p = self;
        p.base.classes.add(class);
        p
    }

    /// Collapse the first pane (and expand the second), when collapsible.
    pub fn collapse_first(&mut self)
        ensures
            final(self)@ == (if old(self)@.collapsible {
                SplitPaneView { first_collapsed: true, second_collapsed: false, ..old(self)@ }
            } else {
                old(self)@
            }),
            split_wf(old(self)@) ==> split_wf(final(self)@),
    {
        if self.collapsible {
            self.first_collapsed = true;
            self.second_collapsed = false;
        }
    }

    /// Collapse the second pane (and expand the first), when collapsible.
    pub fn collapse_second(&mut self)
        ensures
            final(self)@ == (if old(self)@.collapsible {
                SplitPaneView { second_collapsed: true, first_collapsed: false, ..old(self)@ }
            } else {
                old(self)@
            }),
            split_wf(old(self)@) ==> split_wf(final(self)@),
    {
        if self.collapsible {
            self.second_collapsed = true;
            self.first_collapsed = false;
        }
    }

    /// Expand both panes.
    pub fn expand(&mut self)
        ensures
            final(self)@ == (SplitPaneView { first_collapsed: false, second_collapsed: false, ..old(self)@ }),
            split_wf(final(self)@),
    {
        self.first_collapsed = false;
        self.second_collapsed = false;
    }

    /// Whether each pane is collapsed.
    pub fn collapsed(&self) -> (r: (bool, bool))
        ensures
            r == (self@.first_collapsed, self@.second_collapsed),
    {
        (self.first_collapsed, self.second_collapsed)
    }

    /// The orientation.
    pub fn orientation(&self) -> (r: SplitOrientation)
        ensures
            r == self@.orientation,
    {
        self.orientation
    }

    /// Whether the divider is being dragged.
    pub fn is_dragging(&self) -> (r: bool)
        ensures
            r == self@.dragging,
    {
        self.dragging
    }

    /// The arrow of the collapse button (see `collapse_arrow_of`).
    pub fn collapse_arrow(&self) -> (r: &'static str)
        ensures
            r@ == collapse_arrow_of(self@),
    {
        match self.orientation {
            SplitOrientation::Horizontal => if self.first_collapsed { "▶" } else { "◀" },
            SplitOrientation::Vertical => if self.first_collapsed { "▼" } else { "▲" },
        }
    }

    /// Handles a pointer event that neither pane took; `on_divider` says
    /// whether the pointer is on the divider. While dragging, a move asks
    /// the divider to follow; otherwise a move tracks the divider hover. A
    /// left press on the divider starts a drag and takes the focus; the
    /// left release ends it; a leave drops the hover.
    pub fn handle_divider(&mut self, ev: PointerEvent, on_divider: bool, ctx: &mut EventContext) -> (r: (EventResult, DividerAction))
        ensures
            ({
                let v = old(self)@;
                match ev.kind {
                    MouseEventKind::Move => if v.dragging {
                        &&& final(self)@ == v
                        &&& r == (EventResult::Handled, DividerAction::Follow)
                        &&& final(ctx).focus == old(ctx).focus
                        &&& final(ctx).should_redraw
                    } else {
                        &&& final(self)@ == (SplitPaneView { divider_hovered: on_divider, ..v })
                        &&& r == (EventResult::Ignored, DividerAction::Nothing)
                        &&& final(ctx).focus == old(ctx).focus
                        &&& final(ctx).should_redraw == (old(ctx).should_redraw || on_divider != v.divider_hovered)
                    },
                    MouseEventKind::Down if is_left(ev.button) && on_divider => {
                        &&& final(self)@ == (SplitPaneView { dragging: true, ..v })
                        &&& r == (EventResult::Handled, DividerAction::StartDrag)
                        &&& final(ctx).focus == Some(v.base.id)
                        &&& final(ctx).should_redraw
                    },
                    MouseEventKind::Up if is_left(ev.button) && v.dragging => {
                        &&& final(self)@ == (SplitPaneView { dragging: false, ..v })
                        &&& r == (EventResult::Handled, DividerAction::Nothing)
                        &&& final(ctx).focus == old(ctx).focus
                        &&& final(ctx).should_redraw
                    },
                    MouseEventKind::Leave => {
                        &&& final(self)@ == (SplitPaneView { divider_hovered: false, ..v })
                        &&& r == (EventResult::Ignored, DividerAction::Nothing)
                        &&& final(ctx).focus == old(ctx).focus
                        &&& final(ctx).should_redraw == (old(ctx).should_redraw || v.divider_hovered)
                    },
                    _ => {
                        &&& final(self)@ == v
                        &&& r == (EventResult::Ignored, DividerAction::Nothing)
                        &&& final(ctx).focus == old(ctx).focus
                        &&& final(ctx).should_redraw == old(ctx).should_redraw
                    },
                }
            }),
    {
        match ev.kind {
            MouseEventKind::Move => {
                if self.dragging {
                    ctx.request_redraw();
                    return (EventResult::Handled, DividerAction::Follow);
                }
                if on_divider != self.divider_hovered {
                    self.divider_hovered = on_divider;
                    ctx.request_redraw();
                }
                (EventResult::Ignored, DividerAction::Nothing)
            },
            MouseEventKind::Down => {
                if left_button(ev.button) && on_divider {
                    self.dragging = true;
                    ctx.request_focus(self.base.id);
                    ctx.request_redraw();
                    return (EventResult::Handled, DividerAction::StartDrag);
                }
                (EventResult::Ignored, DividerAction::Nothing)
            },
            MouseEventKind::Up => {
                if left_button(ev.button) && self.dragging {
                    self.dragging = false;
                    ctx.request_redraw();
                    return (EventResult::Handled, DividerAction::Nothing);
                }
                (EventResult::Ignored, DividerAction::Nothing)
            },
            MouseEventKind::Leave => {
                if self.divider_hovered {
                    self.divider_hovered = false;
                    ctx.request_redraw();
                }
                (EventResult::Ignored, DividerAction::Nothing)
            },
            _ => (EventResult::Ignored, DividerAction::Nothing),
        }
    }
}

impl Widget for SplitPane {
    fn id(&self) -> (r: WidgetId)
        ensures
            r == self@.base.id,
    {
        self.base.id
    }

    fn widget_type_name(&self) -> (r: &'static str)
        ensures
            r@ == "split-pane"@,
    {
        "split-pane"
    }

    fn element_id(&self) -> (r: Option<&str>)
        ensures
            match r {
                Some(s) => self@.base.element_id == Some(s@),
                None => self@.base.element_id is None,
            },
    {
        self.base.element_id_str()
    }

    fn classes(&self) -> (r: &ClassList)
        ensures
            r@ == self@.base.classes,
    {
        &self.base.classes
    }

    fn state(&self) -> (r: WidgetState)
        ensures
            r == self@.base.state,
    {
        self.base.state
    }
}

} // verus!
