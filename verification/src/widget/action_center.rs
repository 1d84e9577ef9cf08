//! Action center: quick setting toggles and the notification list.
use vstd::prelude::*;

use super::{BaseView, Widget, WidgetBase, WidgetId, WidgetIds, succ_id};
use crate::css::{added, ClassList, WidgetState};
use crate::text::{owned, str_eq};

verus! {

/// A quick settings toggle.
#[derive(Debug)]
pub struct QuickAction {
    pub id: String,
    pub name: String,
    pub icon: String,
    pub is_active: bool,
    pub is_available: bool,
}

/// `a` has the given texts, is inactive and available.
pub open spec fn fresh_action(a: QuickAction, id: Seq<char>, name: Seq<char>, icon: Seq<char>) -> bool {
    &&& a.id@ == id
    &&& a.name@ == name
    &&& a.icon@ == icon
    &&& !a.is_active
    &&& a.is_available
}

impl QuickAction {
    /// An inactive, available quick action.
    pub fn new(id: &str, name: &str, icon: &str) -> (r: Self)
        ensures
            fresh_action(r, id@, name@, icon@),
    {
        QuickAction { id: owned(id), name: owned(name), icon: owned(icon), is_active: false, is_available: true }
    }

    /// Set whether the action is on.
    pub fn active(self, active: bool) -> (r: Self)
        ensures
            r == (QuickAction { is_active: active, ..self }),
    {
        QuickAction { is_active: active, ..self }
    }

    /// Set whether the action can be used.
    pub fn available(self, available: bool) -> (r: Self)
        ensures
            r == (QuickAction { is_available: available, ..self }),
    {
        QuickAction { is_available: available, ..self }
    }
}

/// Notification priority.
#[derive(Debug, Clone, Copy, PartialEq, Eq, Structural)]
pub enum NotificationPriority {
    Low,
    Normal,
    High,
    Critical,
}

impl Default for NotificationPriority {
    fn default() -> (r: Self)
        ensures
            r == NotificationPriority::Normal,
    {
        NotificationPriority::Normal
    }
}

/// A notification in the action center.
#[derive(Debug)]
pub struct ActionNotification {
    pub id: String,
    pub app_name: String,
    pub app_icon: Option<String>,
    pub title: String,
    pub body: Option<String>,
    pub timestamp: u64,
    pub priority: NotificationPriority,
    pub is_read: bool,
    pub actions: Vec<(String, String)>,
}

/// The views of a list of (id, label) pairs.
pub open spec fn pairs_view(v: Seq<(String, String)>) -> Seq<(Seq<char>, Seq<char>)> {
    v.map_values(|p: (String, String)| (p.0@, p.1@))
}

impl ActionNotification {
    /// An unread notification of normal priority with no body, icon or actions.
    pub fn new(id: &str, app: &str, title: &str) -> (r: Self)
        ensures
            r.id@ == id@,
            r.app_name@ == app@,
            r.title@ == title@,
            r.app_icon is None,
            r.body is None,
            r.timestamp == 0,
            r.priority == NotificationPriority::Normal,
            !r.is_read,
            r.actions@.len() == 0,
    {
        ActionNotification {
            id: owned(id),
            app_name: owned(app),
            app_icon: None,
            title: owned(title),
            body: None,
            timestamp: 0,
            priority: NotificationPriority::Normal,
            is_read: false,
            actions: Vec::new(),
        }
    }

    /// Set the body text.
    pub fn body(self, text: &str) -> (r: Self)
        ensures
            r.body matches Some(b) && b@ == text@,
            r == (ActionNotification { body: r.body, ..self }),
    {
        ActionNotification { body: Some(owned(text)), ..self }
    }

    /// Set the application icon.
    pub fn icon(self, icon: &str) -> (r: Self)
        ensures
            r.app_icon matches Some(b) && b@ == icon@,
            r == (ActionNotification { app_icon: r.app_icon, ..self }),
    {
        ActionNotification { app_icon: Some(owned(icon)), ..self }
    }

    /// Set the priority.
    pub fn priority(self, priority: NotificationPriority) -> (r: Self)
        ensures
            r == (ActionNotification { priority, ..self }),
    {
        ActionNotification { priority, ..self }
    }

    /// Append an action button with the given id and label.
    pub fn action(self, id: &str, label: &str) -> (r: Self)
        ensures
            pairs_view(r.actions@) == pairs_view(self.actions@).push((id@, label@)),
            r == (ActionNotification { actions: r.actions, ..self }),
    {
        let mut n = self;
        let ghost before = n.actions@;
        n.actions.push((owned(id), owned(label)));
        assert(pairs_view(n.actions@) =~= pairs_view(before).push((id@, label@)));
        n
    }
}

/// Abstract contents of an `ActionCenter`.
pub struct ActionCenterView {
    pub base: BaseView,
    pub quick_actions: Seq<QuickAction>,
    pub notifications: Seq<ActionNotification>,
    pub is_open: bool,
    pub show_brightness: bool,
    pub do_not_disturb: bool,
}

/// Action center panel with quick toggles and notifications.
pub struct ActionCenter {
    base: WidgetBase,
    quick_actions: Vec<QuickAction>,
    notifications: Vec<ActionNotification>,
    is_open: bool,
    show_brightness: bool,
    do_not_disturb: bool,
}

impl View for ActionCenter {
    type V = ActionCenterView;

    closed spec fn view(&self) -> ActionCenterView {
        ActionCenterView {
            base: self.base@,
            quick_actions: self.quick_actions@,
            notifications: self.notifications@,
            is_open: self.is_open,
            show_brightness: self.show_brightness,
            do_not_disturb: self.do_not_disturb,
        }
    }
}

/// The quick actions an action center starts with.
pub open spec fn default_actions(s: Seq<QuickAction>) -> bool {
    &&& s.len() == 6
    &&& fresh_action(s[0], "wifi"@, "Wi-Fi"@, "📶"@)
    &&& fresh_action(s[1], "bluetooth"@, "Bluetooth"@, "🔵"@)
    &&& fresh_action(s[2], "airplane"@, "Airplane Mode"@, "✈️"@)
    &&& fresh_action(s[3], "battery_saver"@, "Battery Saver"@, "🔋"@)
    &&& fresh_action(s[4], "night_light"@, "Night Light"@, "🌙"@)
    &&& fresh_action(s[5], "focus"@, "Focus Assist"@, "🎯"@)
}

/// The notifications whose id differs from `id`, in their order.
pub open spec fn without_id(s: Seq<ActionNotification>, id: Seq<char>) -> Seq<ActionNotification> {
    s.filter(|n: ActionNotification| n.id@ != id)
}

/// The unread notifications, in their order.
pub open spec fn unread(s: Seq<ActionNotification>) -> Seq<ActionNotification> {
    s.filter(|n: ActionNotification| !n.is_read)
}

/// `k` is the first position of `s` whose action has the id `id`.
pub open spec fn first_action_with_id(s: Seq<QuickAction>, id: Seq<char>, k: int) -> bool {
    &&& 0 <= k < s.len()
    &&& s[k].id@ == id
    &&& forall|j: int| 0 <= j < k ==> s[j].id@ != id
}

impl ActionCenter {
    /// A closed action center with the default quick actions and no notifications.
    pub fn new(ids: &mut WidgetIds) -> (r: Self)
        ensures
            r@.base.id == old(ids)@,
            final(ids)@ == succ_id(old(ids)@),
            r@.base.classes == seq!["action-center"@],
            r@.base.element_id is None,
            default_actions(r@.quick_actions),
            r@.notifications.len() == 0,
            !r@.is_open,
            r@.show_brightness,
            !r@.do_not_disturb,
    {
        let base = WidgetBase::new(ids).with_class("action-center");
        let mut quick_actions: Vec<QuickAction> = Vec::new();
        quick_actions.push(QuickAction::new("wifi", "Wi-Fi", "📶"));
        quick_actions.push(QuickAction::new("bluetooth", "Bluetooth", "🔵"));
        quick_actions.push(QuickAction::new("airplane", "Airplane Mode", "✈️"));
        quick_actions.push(QuickAction::new("battery_saver", "Battery Saver", "🔋"));
        quick_actions.push(QuickAction::new("night_light", "Night Light", "🌙"));
        quick_actions.push(QuickAction::new("focus", "Focus Assist", "🎯"));
        ActionCenter {
            base,
            quick_actions,
            notifications: Vec::new(),
            is_open: false,
            show_brightness: true,
            do_not_disturb: false,
        }
    }

    /// Replace the quick actions.
    pub fn quick_actions(self, actions: Vec<QuickAction>) -> (r: Self)
        ensures
            r@ == (ActionCenterView { quick_actions: actions@, ..self@ }),
    {
        ActionCenter { quick_actions: actions, ..self }
    }

    /// Append a quick action.
    pub fn action(self, action: QuickAction) -> (r: Self)
        ensures
            r@ == (ActionCenterView { quick_actions: self@.quick_actions.push(action), ..self@ }),
    {
        let mut c = self;
        c.quick_actions.push(action);
        c
    }

    /// Replace the notifications.
    pub fn notifications(self, notifications: Vec<ActionNotification>) -> (r: Self)
        ensures
            r@ == (ActionCenterView { notifications: notifications@, ..self@ }),
    {
        ActionCenter { notifications, ..self }
    }

    /// Append a notification.
    pub fn notification(self, notification: ActionNotification) -> (r: Self)
        ensures
            r@ == (ActionCenterView { notifications: self@.notifications.push(notification), ..self@ }),
    {
        let mut c = self;
        c.notifications.push(notification);
        c
    }

    /// Set whether the brightness slider shows.
    pub fn show_brightness(self, show: bool) -> (r: Self)
        ensures
            r@ == (ActionCenterView { show_brightness: show, ..self@ }),
    {
        ActionCenter { show_brightness: show, ..self }
    }

    /// Set do-not-disturb.
    pub fn do_not_disturb(self, enabled: bool) -> (r: Self)
        ensures
            r@ == (ActionCenterView { do_not_disturb: enabled, ..self@ }),
    {
        ActionCenter { do_not_disturb: enabled, ..self }
    }

    /// Open the panel.
    pub fn open(&mut self)
        ensures
            final(self)@ == (ActionCenterView { is_open: true, ..old(self)@ }),
    {
        self.is_open = true;
    }

    /// Close the panel.
    pub fn close(&mut self)
        ensures
            final(self)@ == (ActionCenterView { is_open: false, ..old(self)@ }),
    {
        self.is_open = false;
    }

    /// Open the panel if closed, close it if open.
    pub fn toggle(&mut self)
        ensures
            final(self)@ == (ActionCenterView { is_open: !old(self)@.is_open, ..old(self)@ }),
    {
        self.is_open = !self.is_open;
    }

    /// Whether the panel is open.
    pub fn is_open(&self) -> (r: bool)
        ensures
            r == self@.is_open,
    {
        self.is_open
    }

    /// Put a notification at the top of the list.
    pub fn add_notification(&mut self, notification: ActionNotification)
        ensures
            final(self)@ == (ActionCenterView {
                notifications: seq![notification] + old(self)@.notifications,
                ..old(self)@
            }),
    {
        let ghost before = self.notifications@;
        self.notifications.insert(0, notification);
        assert(self.notifications@ =~= seq![notification] + before);
    }

    /// Remove every notification with the given id.
    pub fn remove_notification(&mut self, id: &str)
        ensures
            final(self)@ == (ActionCenterView {
                notifications: without_id(old(self)@.notifications, id@),
                ..old(self)@
            }),
    {
        let ghost before = self.notifications@;
        let mut old_list: Vec<ActionNotification> = Vec::new();
        std::mem::swap(&mut old_list, &mut self.notifications);
        let mut kept: Vec<ActionNotification> = Vec::new();
        let ghost pred = |n: ActionNotification| n.id@ != id@;
        let mut i: usize = 0;
        let n = old_list.len();
        let mut rest = old_list;
        while i < n
            invariant
                n == before.len(),
                i <= n,
                rest@ == before.subrange(i as int, n as int),
                pred == (|n: ActionNotification| n.id@ != id@),
                kept@ == before.take(i as int).filter(pred),
            decreases n - i,
        {
            let item = rest.remove(0);
            proof {
                assert(item == before[i as int]);
                assert(rest@ =~= before.subrange(i + 1, n as int));
                reveal_with_fuel(Seq::filter, 1);
                assert(before.take(i + 1).drop_last() =~= before.take(i as int));
            }
            let keep = !str_eq(item.id.as_str(), id);
            proof {
                assert(before.take(i + 1).last() == item);
                assert(pred(item) == keep);
            }
            if keep {
                kept.push(item);
            }
            i = i + 1;
        }
        assert(before.take(n as int) =~= before);
        self.notifications = kept;
    }

    /// Remove all notifications.
    pub fn clear_notifications(&mut self)
        ensures
            final(self)@ == (ActionCenterView { notifications: Seq::empty(), ..old(self)@ }),
    {
        self.notifications.clear();
    }

    /// The number of unread notifications.
    pub fn unread_count(&self) -> (r: usize)
        ensures
            r == unread(self@.notifications).len(),
    {
        let ghost pred = |n: ActionNotification| !n.is_read;
        let mut count: usize = 0;
        let mut i: usize = 0;
        while i < self.notifications.len()
            invariant
                i <= self.notifications@.len(),
                pred == (|n: ActionNotification| !n.is_read),
                count == self.notifications@.take(i as int).filter(pred).len(),
                count <= i,
            decreases self.notifications.len() - i,
        {
            proof {
                reveal_with_fuel(Seq::filter, 1);
                assert(self.notifications@.take(i + 1).drop_last() =~= self.notifications@.take(i as int));
            }
            proof {
                assert(self.notifications@.take(i + 1).last() == self.notifications@[i as int]);
                assert(pred(self.notifications@[i as int]) == !self.notifications@[i as int].is_read);
            }
            if !self.notifications[i].is_read {
                count = count + 1;
            }
            i = i + 1;
        }
        assert(self.notifications@.take(self.notifications@.len() as int) =~= self.notifications@);
        count
    }

    /// Flip the first quick action with the given id; returns its new state,
    /// or `None` when no action has that id.
    pub fn toggle_action(&mut self, id: &str) -> (r: Option<bool>)
        ensures
            match r {
                None => final(self)@ == old(self)@
                    && forall|j: int| 0 <= j < old(self)@.quick_actions.len() ==> old(self)@.quick_actions[j].id@ != id@,
                Some(active) => exists|k: int| {
                    &&& first_action_with_id(old(self)@.quick_actions, id@, k)
                    &&& active == !old(self)@.quick_actions[k].is_active
                    &&& final(self)@ == (ActionCenterView {
                        quick_actions: old(self)@.quick_actions.update(k,
                            QuickAction { is_active: active, ..old(self)@.quick_actions[k] }),
                        ..old(self)@
                    })
                },
            },
    {
        let mut i: usize = 0;
        while i < self.quick_actions.len()
            invariant
                i <= self.quick_actions@.len(),
                self@ == old(self)@,
                forall|j: int| 0 <= j < i ==> self.quick_actions@[j].id@ != id@,
            decreases self.quick_actions.len() - i,
        {
            if str_eq(self.quick_actions[i].id.as_str(), id) {
                let ghost before = self.quick_actions@;
                let mut a = self.quick_actions.remove(i);
                a.is_active = !a.is_active;
                let active = a.is_active;
                self.quick_actions.insert(i, a);
                assert(self.quick_actions@ =~= before.update(i as int, QuickAction { is_active: active, ..before[i as int] }));
                assert(first_action_with_id(old(self)@.quick_actions, id@, i as int));
                assert(self@ == (ActionCenterView {
                    quick_actions: old(self)@.quick_actions.update(i as int,
                        QuickAction { is_active: active, ..old(self)@.quick_actions[i as int] }),
                    ..old(self)@
                }));
                return Some(active);
            }
            i = i + 1;
        }
        None
    }

    /// Add a CSS class.
    pub fn class(self, class: &str) -> (r: Self)
        ensures
            r@ == (ActionCenterView { base: BaseView { classes: added(self@.base.classes, class@), ..self@.base }, ..self@ }),
    {
        let mut c = self;
        c.base.classes.add(class);
        c
    }

    /// Set the element ID.
    pub fn id(self, id: &str) -> (r: Self)
        ensures
            r@ == (ActionCenterView { base: BaseView { element_id: Some(id@), ..self@.base }, ..self@ }),
    {
        let mut c = self;
        c.base.element_id = Some(owned(id));
        c
    }
}

/// Removing a notification by id leaves none with that id, and keeps every
/// other notification in its order.
pub proof fn lemma_removed_notifications_gone(s: Seq<ActionNotification>, id: Seq<char>)
    ensures
        forall|i: int| 0 <= i < without_id(s, id).len() ==> without_id(s, id)[i].id@ != id,
        without_id(s, id).len() <= s.len(),
{
    let pred = |n: ActionNotification| n.id@ != id;
    broadcast use vstd::seq_lib::group_filter_ensures;
    s.lemma_filter_len(pred);
}

impl Widget for ActionCenter {
    fn id(&self) -> (r: WidgetId)
        ensures
            r == self@.base.id,
    {
        self.base.id
    }

    fn widget_type_name(&self) -> (r: &'static str)
        ensures
            r@ == "action-center"@,
    {
        "action-center"
    }

    fn element_id(&self) -> (r: Option<&str>)
        ensures
            match r {
                Some(s) => self@.base.element_id == Some(s@),
                None => self@.base.element_id is None,
            },
    {
        self.base.element_id_str()
    }

    fn classes(&self) -> (r: &ClassList)
        ensures
            r@ == self@.base.classes,
    {
        &self.base.classes
    }

    fn state(&self) -> (r: WidgetState)
        ensures
            r == self@.base.state,
    {
        self.base.state
    }
}

} // verus!
