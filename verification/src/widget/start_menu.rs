//! Start menu widget: pinned and recent items, all apps with search,
//! power options and the user profile.
use vstd::prelude::*;

use super::{BaseView, Widget, WidgetBase, WidgetId, WidgetIds, succ_id};
use crate::css::{added, cleared_state, ClassList, WidgetState};
use crate::text::{contains_str, is_substring, lowercase, occurs_at, opt_view, owned, to_lowercase};

verus! {

/// An entry of the start menu: an app or a folder of entries.
#[derive(Debug)]
pub struct StartMenuItem {
    pub id: String,
    pub name: String,
    pub icon: Option<String>,
    pub command: Option<String>,
    pub is_folder: bool,
    pub children: Vec<StartMenuItem>,
}

impl StartMenuItem {
    /// An app entry.
    pub fn app(id: &str, name: &str) -> (r: Self)
        ensures
            r.id@ == id@,
            r.name@ == name@,
            r.icon is None,
            r.command is None,
            !r.is_folder,
            r.children@.len() == 0,
    {
        StartMenuItem { id: owned(id), name: owned(name), icon: None, command: None, is_folder: false, children: Vec::new() }
    }

    /// A folder entry.
    pub fn folder(id: &str, name: &str) -> (r: Self)
        ensures
            r.id@ == id@,
            r.name@ == name@,
            r.icon is None,
            r.command is None,
            r.is_folder,
            r.children@.len() == 0,
    {
        StartMenuItem { id: owned(id), name: owned(name), icon: None, command: None, is_folder: true, children: Vec::new() }
    }

    /// Set the icon.
    pub fn icon(self, icon: &str) -> (r: Self)
        ensures
            opt_view(&r.icon) == Some(icon@),
            r == (StartMenuItem { icon: r.icon, ..self }),
    {
        StartMenuItem { icon: Some(owned(icon)), ..self }
    }

    /// Set the command it runs.
    pub fn command(self, cmd: &str) -> (r: Self)
        ensures
            opt_view(&r.command) == Some(cmd@),
            r == (StartMenuItem { command: r.command, ..self }),
    {
        StartMenuItem { command: Some(owned(cmd)), ..self }
    }

    /// Append a child entry.
    pub fn child(self, item: StartMenuItem) -> (r: Self)
        ensures
            r.children@ == self.children@.push(item),
            r == (StartMenuItem { children: r.children, ..self }),
    {
        let mut s = self;
        s.children.push(item);
        s
    }
}

/// A power option.
#[derive(Debug, Clone, Copy, PartialEq, Eq, Structural)]
pub enum PowerAction {
    Shutdown,
    Restart,
    Suspend,
    Hibernate,
    Lock,
    Logout,
}

/// The section the menu shows.
#[derive(Debug, Clone, Copy, PartialEq, Eq, Structural)]
pub enum StartMenuSection {
    Pinned,
    Recent,
    AllApps,
    Power,
    User,
}

impl Default for StartMenuSection {
    fn default() -> (r: Self)
        ensures
            r == StartMenuSection::Pinned,
    {
        StartMenuSection::Pinned
    }
}

/// Abstract contents of a `StartMenu`.
pub struct StartMenuView {
    pub base: BaseView,
    pub is_open: bool,
    pub current_section: StartMenuSection,
    pub pinned_apps: Seq<StartMenuItem>,
    pub recent_items: Seq<StartMenuItem>,
    pub all_apps: Seq<StartMenuItem>,
    pub user_name: Seq<char>,
    pub user_avatar: Option<Seq<char>>,
    pub search_query: Seq<char>,
    pub search_active: bool,
    pub blur_enabled: bool,
}

/// The start menu.
#[derive(Debug)]
pub struct StartMenu {
    base: WidgetBase,
    is_open: bool,
    current_section: StartMenuSection,
    pinned_apps: Vec<StartMenuItem>,
    recent_items: Vec<StartMenuItem>,
    all_apps: Vec<StartMenuItem>,
    user_name: String,
    user_avatar: Option<String>,
    search_query: String,
    search_active: bool,
    blur_enabled: bool,
}

impl View for StartMenu {
    type V = StartMenuView;

    closed spec fn view(&self) -> StartMenuView {
        StartMenuView {
            base: self.base@,
            is_open: self.is_open,
            current_section: self.current_section,
            pinned_apps: self.pinned_apps@,
            recent_items: self.recent_items@,
            all_apps: self.all_apps@,
            user_name: self.user_name@,
            user_avatar: opt_view(&self.user_avatar),
            search_query: self.search_query@,
            search_active: self.search_active,
            blur_enabled: self.blur_enabled,
        }
    }
}

/// The search is active exactly when there is a query.
pub open spec fn start_menu_wf(v: StartMenuView) -> bool {
    v.search_active == (v.search_query.len() > 0)
}

/// Whether an app's name holds the query, both lowercased.
pub open spec fn name_matches(a: StartMenuItem, query: Seq<char>) -> bool {
    is_substring(lowercase(query), lowercase(a.name@))
}

/// The apps a search lets through: all of them for an empty query, else
/// those whose name matches, in order.
pub open spec fn search_results(apps: Seq<StartMenuItem>, query: Seq<char>) -> Seq<StartMenuItem> {
    if query.len() == 0 { apps } else { apps.filter(|a: StartMenuItem| name_matches(a, query)) }
}

/// The entries a list of references points to.
pub open spec fn deref_items(s: Seq<&StartMenuItem>) -> Seq<StartMenuItem> {
    s.map_values(|a: &StartMenuItem| *a)
}

/// With a non-empty query, an app is among the search results exactly when
/// it is one of the apps and the lowercased query occurs, at some position,
/// in its lowercased name; with an empty query every app is.
pub proof fn lemma_search_finds_query_anywhere(apps: Seq<StartMenuItem>, query: Seq<char>, a: StartMenuItem)
    ensures
        query.len() > 0 ==> (search_results(apps, query).contains(a) <==> (apps.contains(a)
            && exists|k: int| 0 <= k && k + lowercase(query).len() <= lowercase(a.name@).len()
                && #[trigger] lowercase(a.name@).subrange(k, k + lowercase(query).len()) == lowercase(query))),
        query.len() == 0 ==> search_results(apps, query) == apps,
{
    if query.len() > 0 {
        let pred = |x: StartMenuItem| name_matches(x, query);
        let lq = lowercase(query);
        let ln = lowercase(a.name@);
        if search_results(apps, query).contains(a) {
            apps.lemma_filter_contains_rev(pred, a);
            let j = choose|j: int| 0 <= j < apps.filter(pred).len() && apps.filter(pred)[j] == a;
            apps.lemma_filter_pred(pred, j);
            let k = choose|k: int| occurs_at(lq, ln, k);
            assert(ln.subrange(k, k + lq.len()) == lq);
        }
        if apps.contains(a) && exists|k: int| 0 <= k && k + lq.len() <= ln.len()
                && #[trigger] ln.subrange(k, k + lq.len()) == lq {
            let k = choose|k: int| 0 <= k && k + lq.len() <= ln.len() && #[trigger] ln.subrange(k, k + lq.len()) == lq;
            assert(occurs_at(lq, ln, k));
            let j = choose|j: int| 0 <= j < apps.len() && apps[j] == a;
            apps.lemma_filter_contains(pred, j);
        }
    }
}

/// The menu after opening: open, on the pinned section, with no search.
pub open spec fn opened(v: StartMenuView) -> StartMenuView {
    StartMenuView {
        is_open: true,
        search_query: Seq::<char>::empty(),
        search_active: false,
        current_section: StartMenuSection::Pinned,
        ..v
    }
}

impl StartMenu {
    /// A closed menu on the pinned section, for the user `User`, with no
    /// items, no search and blur enabled.
    pub fn new(ids: &mut WidgetIds) -> (r: Self)
        ensures
            r@.base.id == old(ids)@,
            final(ids)@ == succ_id(old(ids)@),
            r@.base.classes == seq!["start-menu"@],
            r@.base.element_id is None,
            r@.base.state == cleared_state(),
            !r@.is_open,
            r@.current_section == StartMenuSection::Pinned,
            r@.pinned_apps.len() == 0,
            r@.recent_items.len() == 0,
            r@.all_apps.len() == 0,
            r@.user_name == "User"@,
            r@.user_avatar is None,
            r@.search_query.len() == 0,
            !r@.search_active,
            r@.blur_enabled,
            start_menu_wf(r@),
    {
        StartMenu {
            base: WidgetBase::new(ids).with_class("start-menu"),
            is_open: false,
            current_section: StartMenuSection::Pinned,
            pinned_apps: Vec::new(),
            recent_items: Vec::new(),
            all_apps: Vec::new(),
            user_name: owned("User"),
            user_avatar: None,
            search_query: String::new(),
            search_active: false,
            blur_enabled: true,
        }
    }

    /// Set the user name.
    pub fn user_name(self, name: &str) -> (r: Self)
        ensures
            r@ == (StartMenuView { user_name: name@, ..self@ }),
    {
        StartMenu { user_name: owned(name), ..self }
    }

    /// Set the user avatar path.
    pub fn user_avatar(self, path: &str) -> (r: Self)
        ensures
            r@ == (StartMenuView { user_avatar: Some(path@), ..self@ }),
    {
        StartMenu { user_avatar: Some(owned(path)), ..self }
    }

    /// Pin an item.
    pub fn pinned(self, item: StartMenuItem) -> (r: Self)
        ensures
            r@ == (StartMenuView { pinned_apps: self@.pinned_apps.push(item), ..self@ }),
    {
        let mut m = self;
        m.pinned_apps.push(item);
        m
    }

    /// Add a recent item.
    pub fn recent(self, item: StartMenuItem) -> (r: Self)
        ensures
            r@ == (StartMenuView { recent_items: self@.recent_items.push(item), ..self@ }),
    {
        let mut m = self;
        m.recent_items.push(item);
        m
    }

    /// Add an app to the list of all apps.
    pub fn app(self, item: StartMenuItem) -> (r: Self)
        ensures
            r@ == (StartMenuView { all_apps: self@.all_apps.push(item), ..self@ }),
    {
        let mut m = self;
        m.all_apps.push(item);
        m
    }

    /// Replace the list of all apps.
    pub fn apps(self, apps: Vec<StartMenuItem>) -> (r: Self)
        ensures
            r@ == (StartMenuView { all_apps: apps@, ..self@ }),
    {
        StartMenu { all_apps: apps, ..self }
    }

    /// Enable or disable the blurred background.
    pub fn blur(self, enabled: bool) -> (r: Self)
        ensures
            r@ == (StartMenuView { blur_enabled: enabled, ..self@ }),
    {
        StartMenu { blur_enabled: enabled, ..self }
    }

    /// Open the menu on the pinned section with an empty search.
    pub fn open(&mut self)
        ensures
            final(self)@ == opened(old(self)@),
            start_menu_wf(final(self)@),
    {
        self.is_open = true;
        self.search_query = String::new();
        self.search_active = false;
        self.current_section = StartMenuSection::Pinned;
    }

    /// Close the menu.
    pub fn close(&mut self)
        ensures
            final(self)@ == (StartMenuView { is_open: false, ..old(self)@ }),
    {
        self.is_open = false;
    }

    /// Close the menu when open, else open it.
    pub fn toggle(&mut self)
        ensures
            final(self)@ == (if old(self)@.is_open {
                StartMenuView { is_open: false, ..old(self)@ }
            } else {
                opened(old(self)@)
            }),
    {
        if self.is_open {
            self.close();
        } else {
            self.open();
        }
    }

    /// Whether the menu is open.
    pub fn is_open(&self) -> (r: bool)
        ensures
            r == self@.is_open,
    {
        self.is_open
    }

    /// Set the search query; the search is active when it is not empty.
    /// The search handler is then told of the query.
    pub fn set_search(&mut self, query: &str)
        ensures
            final(self)@ == (StartMenuView { search_query: query@, search_active: query@.len() > 0, ..old(self)@ }),
            start_menu_wf(final(self)@),
    {
        self.search_query = owned(query);
        self.search_active = !query.is_empty();
    }

    /// Show a section.
    pub fn set_section(&mut self, section: StartMenuSection)
        ensures
            final(self)@ == (StartMenuView { current_section: section, ..old(self)@ }),
    {
        self.current_section = section;
    }

    /// The section shown.
    pub fn current_section(&self) -> (r: StartMenuSection)
        ensures
            r == self@.current_section,
    {
        self.current_section
    }

    /// Add a CSS class.
    pub fn class(self, class: &str) -> (r: Self)
        ensures
            r@ == (StartMenuView { base: BaseView { classes: added(self@.base.classes, class@), ..self@.base }, ..self@ }),
    {
        let mut c = self;
        c.base.classes.add(class);
        c
    }

    /// Set the element ID.
    pub fn id(self, id: &str) -> (r: Self)
        ensures
            r@ == (StartMenuView { base: BaseView { element_id: Some(id@), ..self@.base }, ..self@ }),
    {
        let mut c = self;
        c.base.element_id = Some(owned(id));
        c
    }

    /// The apps the current search lets through (see `search_results`).
    pub fn get_filtered_apps(&self) -> (r: Vec<&StartMenuItem>)
        ensures
            deref_items(r@) == search_results(self@.all_apps, self@.search_query),
    {
        let mut r: Vec<&StartMenuItem> = Vec::new();
        let empty = self.search_query.as_str().is_empty();
        let query = to_lowercase(self.search_query.as_str());
        let ghost q = self@.search_query;
        let ghost apps = self@.all_apps;
        let ghost pred = |a: StartMenuItem| name_matches(a, q);
        let mut i: usize = 0;
        while i < self.all_apps.len()
            invariant
                i <= apps.len(),
                apps == self.all_apps@,
                q == self@.search_query,
                query@ == lowercase(q),
                pred == (|a: StartMenuItem| name_matches(a, q)),
                empty == (q.len() == 0),
                deref_items(r@) == (if empty { apps.take(i as int) } else { apps.take(i as int).filter(pred) }),
            decreases self.all_apps.len() - i,
        {
            proof {
                reveal_with_fuel(Seq::filter, 1);
                assert(apps.take(i + 1).drop_last() =~= apps.take(i as int));
                assert(apps.take(i + 1).last() == apps[i as int]);
            }
            let ghost before = r@;
            let keep = if empty {
                true
            } else {
                let name = to_lowercase(self.all_apps[i].name.as_str());
                contains_str(name.as_str(), query.as_str())
            };
            if keep {
                r.push(&self.all_apps[i]);
                assert(deref_items(r@) =~= deref_items(before).push(apps[i as int]));
            }
            proof {
                if empty {
                    assert(deref_items(r@) =~= apps.take(i + 1));
                }
            }
            i = i + 1;
        }
        assert(apps.take(apps.len() as int) =~= apps);
        r
    }
}

/// Opening twice is the same as opening once, and opening always clears the
/// search.
pub proof fn lemma_open_idempotent(v: StartMenuView)
    ensures
        opened(opened(v)) == opened(v),
        start_menu_wf(opened(v)),
        opened(v).is_open,
{
}

impl Widget for StartMenu {
    fn id(&self) -> (r: WidgetId)
        ensures
            r == self@.base.id,
    {
        self.base.id
    }

    fn widget_type_name(&self) -> (r: &'static str)
        ensures
            r@ == "start-menu"@,
    {
        "start-menu"
    }

    fn element_id(&self) -> (r: Option<&str>)
        ensures
            match r {
                Some(s) => self@.base.element_id == Some(s@),
                None => self@.base.element_id is None,
            },
    {
        self.base.element_id_str()
    }

    fn classes(&self) -> (r: &ClassList)
        ensures
            r@ == self@.base.classes,
    {
        &self.base.classes
    }

    fn state(&self) -> (r: WidgetState)
        ensures
            r == self@.base.state,
    {
        self.base.state
    }
}

} // verus!
