//! Desktop notification popup.
use vstd::prelude::*;

use super::action_center::pairs_view;
use super::{BaseView, EventContext, Widget, WidgetBase, WidgetId, WidgetIds, succ_id};
use crate::css::{added, ClassList, WidgetState};
use crate::event::{is_left, left_button, EventResult, MouseButton, MouseEventKind};
use crate::text::{opt_view, owned};

verus! {

/// Notification urgency.
#[derive(Debug, Clone, Copy, PartialEq, Eq, Structural)]
pub enum NotificationUrgency {
    Low,
    Normal,
    Critical,
}

impl Default for NotificationUrgency {
    fn default() -> (r: Self)
        ensures
            r == NotificationUrgency::Normal,
    {
        NotificationUrgency::Normal
    }
}

/// What a pointer event on a notification asks of the application.
#[derive(Debug)]
pub enum NotificationCommand {
    Nothing,
    /// The notification body was clicked.
    Click,
    /// The action with the given id was chosen.
    Action(String),
    /// The close button was clicked.
    Close,
}

/// Abstract contents of a `Notification`.
pub struct NotificationView {
    pub base: BaseView,
    pub title: Seq<char>,
    pub body: Seq<char>,
    pub icon: Option<Seq<char>>,
    pub app_name: Option<Seq<char>>,
    pub urgency: NotificationUrgency,
    pub actions: Seq<(Seq<char>, Seq<char>)>,
    pub hovered_action: Option<usize>,
    pub close_hovered: bool,
}

/// A notification popup.
pub struct Notification {
    base: WidgetBase,
    title: String,
    body: String,
    icon: Option<String>,
    app_name: Option<String>,
    urgency: NotificationUrgency,
    actions: Vec<(String, String)>,
    hovered_action: Option<usize>,
    close_hovered: bool,
}

impl View for Notification {
    type V = NotificationView;

    closed spec fn view(&self) -> NotificationView {
        NotificationView {
            base: self.base@,
            title: self.title@,
            body: self.body@,
            icon: opt_view(&self.icon),
            app_name: opt_view(&self.app_name),
            urgency: self.urgency,
            actions: pairs_view(self.actions@),
            hovered_action: self.hovered_action,
            close_hovered: self.close_hovered,
        }
    }
}

impl Notification {
    /// An empty notification of normal urgency.
    pub fn new(ids: &mut WidgetIds) -> (r: Self)
        ensures
            r@.base.id == old(ids)@,
            final(ids)@ == succ_id(old(ids)@),
            r@.base.classes == seq!["notification"@],
            r@.base.element_id is None,
            r@.title.len() == 0,
            r@.body.len() == 0,
            r@.icon is None,
            r@.app_name is None,
            r@.urgency == NotificationUrgency::Normal,
            r@.actions.len() == 0,
            r@.hovered_action is None,
            !r@.close_hovered,
    {
        let r = Notification {
            base: WidgetBase::new(ids).with_class("notification"),
            title: String::new(),
            body: String::new(),
            icon: None,
            app_name: None,
            urgency: NotificationUrgency::Normal,
            actions: Vec::new(),
            hovered_action: None,
            close_hovered: false,
        };
        assert(r@.actions =~= Seq::empty());
        r
    }

    /// Set the title.
    pub fn title(self, title: &str) -> (r: Self)
        ensures
            r@ == (NotificationView { title: title@, ..self@ }),
    {
        Notification { title: owned(title), ..self }
    }

    /// Set the body text.
    pub fn body(self, body: &str) -> (r: Self)
        ensures
            r@ == (NotificationView { body: body@, ..self@ }),
    {
        Notification { body: owned(body), ..self }
    }

    /// Set the icon.
    pub fn icon(self, icon: &str) -> (r: Self)
        ensures
            r@ == (NotificationView { icon: Some(icon@), ..self@ }),
    {
        Notification { icon: Some(owned(icon)), ..self }
    }

    /// Set the application name.
    pub fn app_name(self, name: &str) -> (r: Self)
        ensures
            r@ == (NotificationView { app_name: Some(name@), ..self@ }),
    {
        Notification { app_name: Some(owned(name)), ..self }
    }

    /// Set the urgency.
    pub fn urgency(self, urgency: NotificationUrgency) -> (r: Self)
        ensures
            r@ == (NotificationView { urgency, ..self@ }),
    {
        Notification { urgency, ..self }
    }

    /// Append an action button with the given id and label.
    pub fn action(self, id: &str, label: &str) -> (r: Self)
        ensures
            r@ == (NotificationView { actions: self@.actions.push((id@, label@)), ..self@ }),
    {
        let mut n = self;
        let ghost before = n.actions@;
        n.actions.push((owned(id), owned(label)));
        assert(pairs_view(n.actions@) =~= pairs_view(before).push((id@, label@)));
        n
    }

    /// Add a CSS class.
    pub fn class(self, class: &str) -> (r: Self)
        ensures
            r@ == (NotificationView { base: BaseView { classes: added(self@.base.classes, class@), ..self@.base }, ..self@ }),
    {
        let mut n = self;
        n.base.classes.add(class);
        n
    }

    /// The number of action buttons.
    pub fn action_count(&self) -> (r: usize)
        ensures
            r == self@.actions.len(),
    {
        self.actions.len()
    }

    /// Handles a pointer event. `in_bounds` tells whether the pointer lies
    /// on the notification, `in_close` whether on its close button, and
    /// `in_action` which action button it lies on. Moving tracks the
    /// hovered buttons; a left release closes, runs the action, or clicks
    /// the notification, in that order of precedence.
    pub fn handle_pointer(
        &mut self,
        kind: MouseEventKind,
        button: Option<MouseButton>,
        in_bounds: bool,
        in_close: bool,
        in_action: Option<usize>,
        ctx: &mut EventContext,
    ) -> (r: (EventResult, NotificationCommand))
        ensures
            final(ctx).focus == old(ctx).focus,
            kind == MouseEventKind::Move ==> {
                &&& final(self)@ == (NotificationView { close_hovered: in_close, hovered_action: in_action, ..old(self)@ })
                &&& final(ctx).should_redraw == (old(ctx).should_redraw
                    || old(self)@.close_hovered != in_close || old(self)@.hovered_action != in_action)
                &&& r.0 == EventResult::Ignored
                &&& r.1 is Nothing
            },
            kind == MouseEventKind::Up && is_left(button) ==> {
                &&& final(self)@ == old(self)@
                &&& final(ctx).should_redraw == old(ctx).should_redraw
                &&& if in_close {
                    r.0 == EventResult::Handled && r.1 is Close
                } else if in_action is Some && in_action->0 < old(self)@.actions.len() {
                    r.0 == EventResult::Handled
                        && (r.1 matches NotificationCommand::Action(id) && id@ == old(self)@.actions[in_action->0 as int].0)
                } else if in_bounds {
                    r.0 == EventResult::Handled && r.1 is Click
                } else {
                    r.0 == EventResult::Ignored && r.1 is Nothing
                }
            },
            !(kind == MouseEventKind::Move) && !(kind == MouseEventKind::Up && is_left(button)) ==> {
                &&& final(self)@ == old(self)@
                &&& final(ctx).should_redraw == old(ctx).should_redraw
                &&& r.0 == EventResult::Ignored
                &&& r.1 is Nothing
            },
    {
        match kind {
            MouseEventKind::Move => {
                let changed = self.close_hovered != in_close || self.hovered_action != in_action;
                self.close_hovered = in_close;
                self.hovered_action = in_action;
                if changed {
                    ctx.request_redraw();
                }
                (EventResult::Ignored, NotificationCommand::Nothing)
            },
            MouseEventKind::Up => {
                if !left_button(button) {
                    return (EventResult::Ignored, NotificationCommand::Nothing);
                }
                if in_close {
                    return (EventResult::Handled, NotificationCommand::Close);
                }
                match in_action {
                    Some(i) => {
                        if i < self.actions.len() {
                            let id = owned(self.actions[i].0.as_str());
                            return (EventResult::Handled, NotificationCommand::Action(id));
                        }
                    },
                    None => {},
                }
                if in_bounds {
                    (EventResult::Handled, NotificationCommand::Click)
                } else {
                    (EventResult::Ignored, NotificationCommand::Nothing)
                }
            },
            _ => (EventResult::Ignored, NotificationCommand::Nothing),
        }
    }
}

impl Widget for Notification {
    fn id(&self) -> (r: WidgetId)
        ensures
            r == self@.base.id,
    {
        self.base.id
    }

    fn widget_type_name(&self) -> (r: &'static str)
        ensures
            r@ == "notification"@,
    {
        "notification"
    }

    fn element_id(&self) -> (r: Option<&str>)
        ensures
            match r {
                Some(s) => self@.base.element_id == Some(s@),
                None => self@.base.element_id is None,
            },
    {
        self.base.element_id_str()
    }

    fn classes(&self) -> (r: &ClassList)
        ensures
            r@ == self@.base.classes,
    {
        &self.base.classes
    }

    fn state(&self) -> (r: WidgetState)
        ensures
            r == self@.base.state,
    {
        self.base.state
    }
}

} // verus!
