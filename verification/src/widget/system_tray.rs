//! System tray widget for status icons.
use vstd::prelude::*;

use super::{BaseView, EventContext, Widget, WidgetBase, WidgetId, WidgetIds, succ_id};
use crate::css::{added, cleared_state, ClassList, WidgetState};
use crate::event::{EventResult, MouseButton, MouseEventKind, PointerEvent};
use crate::text::{dec, decimal_string, opt_view, owned, str_eq};

verus! {

/// Abstract contents of a `TrayIcon`.
pub struct TrayIconView {
    pub id: Seq<char>,
    pub icon: Seq<char>,
    pub tooltip: Option<Seq<char>>,
    pub has_badge: bool,
    pub badge_count: Option<u32>,
}

/// A status icon in the tray.
#[derive(Debug, Clone)]
pub struct TrayIcon {
    pub id: String,
    pub icon: String,
    pub tooltip: Option<String>,
    pub has_badge: bool,
    pub badge_count: Option<u32>,
}

impl View for TrayIcon {
    type V = TrayIconView;

    open spec fn view(&self) -> TrayIconView {
        TrayIconView {
            id: self.id@,
            icon: self.icon@,
            tooltip: opt_view(&self.tooltip),
            has_badge: self.has_badge,
            badge_count: self.badge_count,
        }
    }
}

impl TrayIcon {
    /// An icon without tooltip or badge.
    pub fn new(id: &str, icon: &str) -> (r: Self)
        ensures
            r@ == (TrayIconView { id: id@, icon: icon@, tooltip: None, has_badge: false, badge_count: None }),
    {
        TrayIcon { id: owned(id), icon: owned(icon), tooltip: None, has_badge: false, badge_count: None }
    }

    /// Set the tooltip.
    pub fn tooltip(self, tooltip: &str) -> (r: Self)
        ensures
            r@ == (TrayIconView { tooltip: Some(tooltip@), ..self@ }),
    {
        TrayIcon { tooltip: Some(owned(tooltip)), ..self }
    }

    /// Set the badge count; the badge shows exactly when there is a count.
    pub fn badge(self, count: Option<u32>) -> (r: Self)
        ensures
            r@ == (TrayIconView { has_badge: count is Some, badge_count: count, ..self@ }),
    {
        TrayIcon { has_badge: count.is_some(), badge_count: count, ..self }
    }
}

/// The text of a badge: the count, or `9+` above nine.
pub open spec fn badge_text(count: u32) -> Seq<char> {
    if count > 9 { "9+"@ } else { dec(count as nat) }
}

/// The text of a badge (see `badge_text`).
pub fn badge_label(count: u32) -> (r: String)
    ensures
        r@ == badge_text(count),
{
    if count > 9 {
        owned("9+")
    } else {
        decimal_string(count as u64)
    }
}

/// What the owner of a tray is asked to do: tell the click or right-click
/// handler of an icon id.
#[derive(Debug)]
pub enum TrayAction {
    Nothing,
    Click(String),
    RightClick(String),
}

/// The views of a sequence of icons.
pub open spec fn icons_view(s: Seq<TrayIcon>) -> Seq<TrayIconView> {
    s.map_values(|x: TrayIcon| x@)
}

/// `i` is the first position of `s` whose icon has the id `id`.
pub open spec fn first_icon_at(s: Seq<TrayIconView>, id: Seq<char>, i: int) -> bool {
    0 <= i < s.len() && s[i].id == id && forall|j: int| 0 <= j < i ==> s[j].id != id
}

/// The icon under the pointer: the reported one when the tray has it.
pub open spec fn icon_hit(hit: Option<usize>, len: nat) -> Option<usize> {
    match hit {
        Some(i) => if i < len { Some(i) } else { None },
        None => None,
    }
}

/// Abstract contents of a `SystemTray`.
pub struct SystemTrayView {
    pub base: BaseView,
    pub icons: Seq<TrayIconView>,
    pub hovered_icon: Option<Seq<char>>,
}

/// A row of status icons.
#[derive(Debug)]
pub struct SystemTray {
    base: WidgetBase,
    icons: Vec<TrayIcon>,
    hovered_icon: Option<String>,
}

impl View for SystemTray {
    type V = SystemTrayView;

    closed spec fn view(&self) -> SystemTrayView {
        SystemTrayView { base: self.base@, icons: icons_view(self.icons@), hovered_icon: opt_view(&self.hovered_icon) }
    }
}

impl SystemTray {
    /// The icons themselves, in order.
    pub closed spec fn icon_values(&self) -> Seq<TrayIcon> {
        self.icons@
    }

    /// An empty tray.
    pub fn new(ids: &mut WidgetIds) -> (r: Self)
        ensures
            r@.base.id == old(ids)@,
            final(ids)@ == succ_id(old(ids)@),
            r@.base.classes == seq!["system-tray"@],
            r@.base.element_id is None,
            r@.base.state == cleared_state(),
            r@.icons.len() == 0,
            r@.hovered_icon is None,
    {
        SystemTray { base: WidgetBase::new(ids).with_class("system-tray"), icons: Vec::new(), hovered_icon: None }
    }

    /// Add an icon.
    pub fn icon(self, icon: TrayIcon) -> (r: Self)
        ensures
            r@ == (SystemTrayView { icons: self@.icons.push(icon@), ..self@ }),
    {
        let mut t = self;
        t.icons.push(icon);
        assert(icons_view(t.icons@) =~= self@.icons.push(icon@));
        t
    }

    /// Replace the icons.
    pub fn icons(self, icons: Vec<TrayIcon>) -> (r: Self)
        ensures
            r@ == (SystemTrayView { icons: icons_view(icons@), ..self@ }),
    {
        SystemTray { icons, ..self }
    }

    /// Add a CSS class.
    pub fn class(self, class: &str) -> (r: Self)
        ensures
            r@ == (SystemTrayView { base: BaseView { classes: added(self@.base.classes, class@), ..self@.base }, ..self@ }),
    {
        let mut t = self;
        t.base.classes.add(class);
        t
    }

    /// The icons.
    pub fn get_icons(&self) -> (r: &Vec<TrayIcon>)
        ensures
            icons_view(r@) == self@.icons,
    {
        &self.icons
    }

    /// The id of the icon under the pointer, if any.
    pub fn hovered_icon(&self) -> (r: Option<&str>)
        ensures
            match r {
                Some(s) => self@.hovered_icon == Some(s@),
                None => self@.hovered_icon is None,
            },
    {
        match &self.hovered_icon {
            Some(s) => Some(s.as_str()),
            None => None,
        }
    }

    /// Apply `f` to the first icon with id `id`, if there is one.
    pub fn update_icon<F: FnOnce(TrayIcon) -> TrayIcon>(&mut self, id: &str, f: F)
        requires
            forall|t: TrayIcon| f.requires((t,)),
        ensures
            (forall|i: int| 0 <= i < old(self)@.icons.len() ==> old(self)@.icons[i].id != id@) ==> final(self)@ == old(self)@,
            forall|i: int| #[trigger] first_icon_at(old(self)@.icons, id@, i) ==> exists|t: TrayIcon| {
                &&& f.ensures((old(self).icon_values()[i],), t)
                &&& final(self)@ == (SystemTrayView { icons: old(self)@.icons.update(i, t@), ..old(self)@ })
            },
    {
        let ghost s = self@.icons;
        let mut i: usize = 0;
        while i < self.icons.len()
            invariant
                i <= self.icons.len(),
                s == icons_view(self.icons@),
                self@ == old(self)@,
                self.icons@ == old(self).icons@,
                forall|t: TrayIcon| f.requires((t,)),
                forall|j: int| 0 <= j < i ==> s[j].id != id@,
            decreases self.icons.len() - i,
        {
            if str_eq(self.icons[i].id.as_str(), id) {
                assert(old(self)@.icons[i as int].id == id@);
                let icon = self.icons.remove(i);
                let t = f(icon);
                self.icons.insert(i, t);
                assert(icons_view(self.icons@) =~= s.update(i as int, t@));
                assert(f.ensures((old(self).icon_values()[i as int],), t));
                assert(self@ == (SystemTrayView { icons: old(self)@.icons.update(i as int, t@), ..old(self)@ }));
                assert forall|k: int| #[trigger] first_icon_at(s, id@, k) implies k == i by {
                    if k < i {
                        assert(s[k].id != id@);
                    } else if i < k {
                        assert(s[i as int].id != id@);
                    }
                }
                return;
            }
            i = i + 1;
        }
    }

    /// Handles a pointer event; `hit` is the icon under the pointer, if
    /// any. A move tracks the hovered icon, a leave drops it, and releasing
    /// the left or right button on an icon asks for its click or
    /// right-click handler.
    pub fn handle_pointer(&mut self, ev: PointerEvent, hit: Option<usize>, ctx: &mut EventContext) -> (r: (EventResult, TrayAction))
        ensures
            final(ctx).focus == old(ctx).focus,
            ({
                let v = old(self)@;
                let h = icon_hit(hit, v.icons.len());
                let hovered = match h {
                    Some(i) => Some(v.icons[i as int].id),
                    None => None,
                };
                match ev.kind {
                    MouseEventKind::Move => {
                        &&& final(self)@ == (SystemTrayView { hovered_icon: hovered, ..v })
                        &&& r.0 == EventResult::Ignored && r.1 is Nothing
                        &&& final(ctx).should_redraw == (old(ctx).should_redraw || hovered != v.hovered_icon)
                    },
                    MouseEventKind::Leave => {
                        &&& final(self)@ == (SystemTrayView { hovered_icon: None, ..v })
                        &&& r.0 == EventResult::Ignored && r.1 is Nothing
                        &&& final(ctx).should_redraw == (old(ctx).should_redraw || v.hovered_icon is Some)
                    },
                    MouseEventKind::Up if h is Some && ev.button == Some(MouseButton::Left) => {
                        &&& final(self)@ == v
                        &&& r.0 == EventResult::Handled
                        &&& r.1 matches TrayAction::Click(s) && s@ == v.icons[h->0 as int].id
                        &&& final(ctx).should_redraw == old(ctx).should_redraw
                    },
                    MouseEventKind::Up if h is Some && ev.button == Some(MouseButton::Right) => {
                        &&& final(self)@ == v
                        &&& r.0 == EventResult::Handled
                        &&& r.1 matches TrayAction::RightClick(s) && s@ == v.icons[h->0 as int].id
                        &&& final(ctx).should_redraw == old(ctx).should_redraw
                    },
                    _ => {
                        &&& final(self)@ == v
                        &&& r.0 == EventResult::Ignored && r.1 is Nothing
                        &&& final(ctx).should_redraw == old(ctx).should_redraw
                    },
                }
            }),
    {
        let h: Option<usize> = match hit {
            Some(i) => if i < self.icons.len() { Some(i) } else { None },
            None => None,
        };
        match ev.kind {
            MouseEventKind::Move => {
                let new_hovered: Option<String> = match h {
                    Some(i) => Some(self.icons[i].id.clone()),
                    None => None,
                };
                let same = match (&new_hovered, &self.hovered_icon) {
                    (Some(a), Some(b)) => str_eq(a.as_str(), b.as_str()),
                    (None, None) => true,
                    _ => false,
                };
                if !same {
                    self.hovered_icon = new_hovered;
                    ctx.request_redraw();
                }
                (EventResult::Ignored, TrayAction::Nothing)
            },
            MouseEventKind::Leave => {
                if self.hovered_icon.is_some() {
                    self.hovered_icon = None;
                    ctx.request_redraw();
                }
                (EventResult::Ignored, TrayAction::Nothing)
            },
            MouseEventKind::Up => {
                match h {
                    Some(i) => {
                        match ev.button {
                            Some(MouseButton::Left) => (EventResult::Handled, TrayAction::Click(self.icons[i].id.clone())),
                            Some(MouseButton::Right) => (EventResult::Handled, TrayAction::RightClick(self.icons[i].id.clone())),
                            _ => (EventResult::Ignored, TrayAction::Nothing),
                        }
                    },
                    None => (EventResult::Ignored, TrayAction::Nothing),
                }
            },
            _ => (EventResult::Ignored, TrayAction::Nothing),
        }
    }
}

impl Widget for SystemTray {
    fn id(&self) -> (r: WidgetId)
        ensures
            r == self@.base.id,
    {
        self.base.id
    }

    fn widget_type_name(&self) -> (r: &'static str)
        ensures
            r@ == "system-tray"@,
    {
        "system-tray"
    }

    fn element_id(&self) -> (r: Option<&str>)
        ensures
            match r {
                Some(s) => self@.base.element_id == Some(s@),
                None => self@.base.element_id is None,
            },
    {
        self.base.element_id_str()
    }

    fn classes(&self) -> (r: &ClassList)
        ensures
            r@ == self@.base.classes,
    {
        &self.base.classes
    }

    fn state(&self) -> (r: WidgetState)
        ensures
            r == self@.base.state,
    {
        self.base.state
    }
}

} // verus!
