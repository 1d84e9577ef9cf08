//! Taskbar button widget: an app with its open windows.
use vstd::prelude::*;

use super::{BaseView, Widget, WidgetBase, WidgetId, WidgetIds, succ_id};
use crate::css::{added, cleared_state, ClassList, WidgetState};
use crate::text::{dec, decimal_string, opt_view, owned, str_eq};

verus! {

/// The visual state of a taskbar button.
#[derive(Debug, Clone, Copy, PartialEq, Eq, Structural)]
pub enum TaskbarButtonState {
    Normal,
    Hovered,
    Active,
    Attention,
}

impl Default for TaskbarButtonState {
    fn default() -> (r: Self)
        ensures
            r == TaskbarButtonState::Normal,
    {
        TaskbarButtonState::Normal
    }
}

/// Abstract contents of a `TaskbarWindow`.
pub struct TaskbarWindowView {
    pub id: Seq<char>,
    pub title: Seq<char>,
    pub preview: Option<Seq<char>>,
    pub is_active: bool,
}

/// An open window of the app.
#[derive(Debug, Clone)]
pub struct TaskbarWindow {
    pub id: String,
    pub title: String,
    pub preview: Option<String>,
    pub is_active: bool,
}

impl View for TaskbarWindow {
    type V = TaskbarWindowView;

    open spec fn view(&self) -> TaskbarWindowView {
        TaskbarWindowView { id: self.id@, title: self.title@, preview: opt_view(&self.preview), is_active: self.is_active }
    }
}

/// The views of a sequence of windows.
pub open spec fn windows_view(s: Seq<TaskbarWindow>) -> Seq<TaskbarWindowView> {
    s.map_values(|w: TaskbarWindow| w@)
}

/// The windows without those with id `id`, in order.
pub open spec fn without_window(s: Seq<TaskbarWindowView>, id: Seq<char>) -> Seq<TaskbarWindowView> {
    s.filter(|w: TaskbarWindowView| w.id != id)
}

/// The windows with exactly those with id `id` active.
pub open spec fn activated(s: Seq<TaskbarWindowView>, id: Seq<char>) -> Seq<TaskbarWindowView> {
    s.map_values(|w: TaskbarWindowView| TaskbarWindowView { is_active: w.id == id, ..w })
}

/// The text of a badge: the count, or `99+` above 99.
pub open spec fn taskbar_badge_text(count: u32) -> Seq<char> {
    if count > 99 { "99+"@ } else { dec(count as nat) }
}

/// Abstract contents of a `TaskbarButton`.
pub struct TaskbarButtonView {
    pub base: BaseView,
    pub app_id: Seq<char>,
    pub app_name: Seq<char>,
    pub icon: Option<Seq<char>>,
    pub windows: Seq<TaskbarWindowView>,
    pub is_pinned: bool,
    pub state: TaskbarButtonState,
    pub badge: Option<u32>,
}

/// A taskbar button for one app.
#[derive(Debug)]
pub struct TaskbarButton {
    base: WidgetBase,
    app_id: String,
    app_name: String,
    icon: Option<String>,
    windows: Vec<TaskbarWindow>,
    is_pinned: bool,
    state: TaskbarButtonState,
    badge: Option<u32>,
}

impl View for TaskbarButton {
    type V = TaskbarButtonView;

    closed spec fn view(&self) -> TaskbarButtonView {
        TaskbarButtonView {
            base: self.base@,
            app_id: self.app_id@,
            app_name: self.app_name@,
            icon: opt_view(&self.icon),
            windows: windows_view(self.windows@),
            is_pinned: self.is_pinned,
            state: self.state,
            badge: self.badge,
        }
    }
}

/// A badge is never zero.
pub open spec fn taskbar_wf(v: TaskbarButtonView) -> bool {
    v.badge matches Some(n) ==> n > 0
}

impl TaskbarButton {
    /// An unpinned button in the normal state, with no windows, icon or badge.
    pub fn new(ids: &mut WidgetIds, app_id: &str, app_name: &str) -> (r: Self)
        ensures
            r@.base.id == old(ids)@,
            final(ids)@ == succ_id(old(ids)@),
            r@.base.classes == seq!["taskbar-button"@],
            r@.base.element_id is None,
            r@.base.state == cleared_state(),
            r@.app_id == app_id@,
            r@.app_name == app_name@,
            r@.icon is None,
            r@.windows.len() == 0,
            !r@.is_pinned,
            r@.state == TaskbarButtonState::Normal,
            r@.badge is None,
            taskbar_wf(r@),
    {
        TaskbarButton {
            base: WidgetBase::new(ids).with_class("taskbar-button"),
            app_id: owned(app_id),
            app_name: owned(app_name),
            icon: None,
            windows: Vec::new(),
            is_pinned: false,
            state: TaskbarButtonState::Normal,
            badge: None,
        }
    }

    /// Set the icon path.
    pub fn icon(self, path: &str) -> (r: Self)
        ensures
            r@ == (TaskbarButtonView { icon: Some(path@), ..self@ }),
    {
        TaskbarButton { icon: Some(owned(path)), ..self }
    }

    /// Add a window.
    pub fn window(self, window: TaskbarWindow) -> (r: Self)
        ensures
            r@ == (TaskbarButtonView { windows: self@.windows.push(window@), ..self@ }),
    {
        let mut b = self;
        b.windows.push(window);
        assert(windows_view(b.windows@) =~= self@.windows.push(window@));
        b
    }

    /// Replace the windows.
    pub fn windows(self, windows: Vec<TaskbarWindow>) -> (r: Self)
        ensures
            r@ == (TaskbarButtonView { windows: windows_view(windows@), ..self@ }),
    {
        TaskbarButton { windows, ..self }
    }

    /// Pin or unpin the app.
    pub fn pinned(self, pinned: bool) -> (r: Self)
        ensures
            r@ == (TaskbarButtonView { is_pinned: pinned, ..self@ }),
    {
        TaskbarButton { is_pinned: pinned, ..self }
    }

    /// Set the badge count; zero means no badge.
    pub fn badge(self, count: u32) -> (r: Self)
        ensures
            r@ == (TaskbarButtonView { badge: if count > 0 { Some(count) } else { None }, ..self@ }),
            taskbar_wf(r@),
    {
        TaskbarButton { badge: if count > 0 { Some(count) } else { None }, ..self }
    }

    /// The app id.
    pub fn app_id(&self) -> (r: &str)
        ensures
            r@ == self@.app_id,
    {
        self.app_id.as_str()
    }

    /// Whether the app has windows.
    pub fn has_windows(&self) -> (r: bool)
        ensures
            r == (self@.windows.len() > 0),
    {
        self.windows.len() > 0
    }

    /// Whether one of the windows is active.
    pub fn has_active_window(&self) -> (r: bool)
        ensures
            r == exists|i: int| 0 <= i < self@.windows.len() && #[trigger] self@.windows[i].is_active,
    {
        let ghost s = self@.windows;
        let mut i: usize = 0;
        while i < self.windows.len()
            invariant
                i <= self.windows.len(),
                s == windows_view(self.windows@),
                forall|j: int| 0 <= j < i ==> !s[j].is_active,
            decreases self.windows.len() - i,
        {
            if self.windows[i].is_active {
                assert(s[i as int].is_active);
                return true;
            }
            i = i + 1;
        }
        false
    }

    /// The number of windows.
    pub fn window_count(&self) -> (r: usize)
        ensures
            r == self@.windows.len(),
    {
        self.windows.len()
    }

    /// Set the visual state.
    pub fn set_state(&mut self, state: TaskbarButtonState)
        ensures
            final(self)@ == (TaskbarButtonView { state, ..old(self)@ }),
    {
        self.state = state;
    }

    /// Add a window.
    pub fn add_window(&mut self, window: TaskbarWindow)
        ensures
            final(self)@ == (TaskbarButtonView { windows: old(self)@.windows.push(window@), ..old(self)@ }),
    {
        self.windows.push(window);
        assert(windows_view(self.windows@) =~= old(self)@.windows.push(window@));
    }

    /// Remove every window with id `id`.
    pub fn remove_window(&mut self, id: &str)
        ensures
            final(self)@ == (TaskbarButtonView { windows: without_window(old(self)@.windows, id@), ..old(self)@ }),
    {
        let ghost s = old(self)@.windows;
        let ghost pred = |w: TaskbarWindowView| w.id != id@;
        let ghost mut k: int = 0;
        let mut i: usize = 0;
        while i < self.windows.len()
            invariant
                0 <= i <= k <= s.len(),
                pred == (|w: TaskbarWindowView| w.id != id@),
                self@ == (TaskbarButtonView { windows: self@.windows, ..old(self)@ }),
                self@.windows.len() - i == s.len() - k,
                self@.windows.take(i as int) == s.take(k).filter(pred),
                self@.windows.skip(i as int) == s.skip(k),
            decreases self.windows.len() - i,
        {
            proof {
                reveal_with_fuel(Seq::filter, 1);
                assert(s.take(k + 1).drop_last() =~= s.take(k));
                assert(s.take(k + 1).last() == s[k]);
                assert(self@.windows[i as int] == self@.windows.skip(i as int)[0]);
                assert(s[k] == s.skip(k)[0]);
            }
            let ghost before = self@.windows;
            if str_eq(self.windows[i].id.as_str(), id) {
                self.windows.remove(i);
                proof {
                    assert(self@.windows =~= before.take(i as int) + before.skip(i as int + 1));
                    assert(self@.windows.take(i as int) =~= before.take(i as int));
                    assert(self@.windows.skip(i as int) =~= before.skip(i as int + 1));
                    assert(before.skip(i as int + 1) =~= before.skip(i as int).skip(1));
                    assert(s.skip(k + 1) =~= s.skip(k).skip(1));
                    k = k + 1;
                }
            } else {
                proof {
                    assert(self@.windows.take(i + 1) =~= self@.windows.take(i as int).push(self@.windows[i as int]));
                    assert(self@.windows.skip(i + 1) =~= self@.windows.skip(i as int).skip(1));
                    assert(s.skip(k + 1) =~= s.skip(k).skip(1));
                    k = k + 1;
                }
                i = i + 1;
            }
        }
        proof {
            assert(k == s.len());
            assert(s.take(k) =~= s);
            assert(self@.windows.take(i as int) =~= self@.windows);
        }
    }

    /// Make the windows with id `id` the active ones; every other window
    /// becomes inactive.
    pub fn set_active_window(&mut self, id: &str)
        ensures
            final(self)@ == (TaskbarButtonView { windows: activated(old(self)@.windows, id@), ..old(self)@ }),
    {
        let ghost s = old(self)@.windows;
        let mut i: usize = 0;
        while i < self.windows.len()
            invariant
                i <= self.windows.len(),
                self.windows@.len() == s.len(),
                self@ == (TaskbarButtonView { windows: self@.windows, ..old(self)@ }),
                forall|j: int| 0 <= j < i ==> self@.windows[j] == (TaskbarWindowView { is_active: s[j].id == id@, ..s[j] }),
                forall|j: int| i <= j < s.len() ==> self@.windows[j] == s[j],
            decreases self.windows.len() - i,
        {
            let is_match = str_eq(self.windows[i].id.as_str(), id);
            let ghost before = self.windows@;
            self.windows[i].is_active = is_match;
            assert(self.windows@ == before.update(i as int, TaskbarWindow { is_active: is_match, ..before[i as int] }));
            assert(self@.windows =~= windows_view(before).update(i as int,
                TaskbarWindowView { is_active: is_match, ..windows_view(before)[i as int] }));
            i = i + 1;
        }
        assert(self@.windows =~= activated(s, id@));
    }

    /// The badge text, when there is a badge (see `taskbar_badge_text`).
    pub fn badge_text(&self) -> (r: Option<String>)
        ensures
            match r {
                Some(t) => self@.badge matches Some(n) && t@ == taskbar_badge_text(n),
                None => self@.badge is None,
            },
    {
        match self.badge {
            Some(n) => Some(if n > 99 { owned("99+") } else { decimal_string(n as u64) }),
            None => None,
        }
    }

    /// Add a CSS class.
    pub fn class(self, class: &str) -> (r: Self)
        ensures
            r@ == (TaskbarButtonView { base: BaseView { classes: added(self@.base.classes, class@), ..self@.base }, ..self@ }),
    {
        let mut b = self;
        b.base.classes.add(class);
        b
    }

    /// Set the element ID.
    pub fn id(self, id: &str) -> (r: Self)
        ensures
            r@ == (TaskbarButtonView { base: BaseView { element_id: Some(id@), ..self@.base }, ..self@ }),
    {
        let mut b = self;
        b.base.element_id = Some(owned(id));
        b
    }
}

/// After removing a window id no window has it; after activating an id
/// exactly the windows with that id are active.
pub proof fn lemma_window_updates(s: Seq<TaskbarWindowView>, id: Seq<char>)
    ensures
        forall|i: int| 0 <= i < without_window(s, id).len() ==> (#[trigger] without_window(s, id)[i]).id != id,
        without_window(s, id).len() <= s.len(),
        forall|i: int| 0 <= i < s.len() ==> ((#[trigger] activated(s, id)[i]).is_active <==> s[i].id == id),
{
    let pred = |w: TaskbarWindowView| w.id != id;
    assert forall|i: int| 0 <= i < without_window(s, id).len() implies (#[trigger] without_window(s, id)[i]).id != id by {
        s.filter_lemma(pred);
        assert(pred(s.filter(pred)[i]));
    }
    s.filter_lemma(pred);
}

impl Widget for TaskbarButton {
    fn id(&self) -> (r: WidgetId)
        ensures
            r == self@.base.id,
    {
        self.base.id
    }

    fn widget_type_name(&self) -> (r: &'static str)
        ensures
            r@ == "taskbar-button"@,
    {
        "taskbar-button"
    }

    fn element_id(&self) -> (r: Option<&str>)
        ensures
            match r {
                Some(s) => self@.base.element_id == Some(s@),
                None => self@.base.element_id is None,
            },
    {
        self.base.element_id_str()
    }

    fn classes(&self) -> (r: &ClassList)
        ensures
            r@ == self@.base.classes,
    {
        &self.base.classes
    }

    fn state(&self) -> (r: WidgetState)
        ensures
            r == self@.base.state,
    {
        self.base.state
    }
}

} // verus!
