//! App grid: the application launcher's searchable grid of apps.
use vstd::prelude::*;

use super::{BaseView, Widget, WidgetBase, WidgetId, WidgetIds, succ_id};
use crate::css::{added, ClassList, WidgetState};
use crate::text::{contains_str, is_substring, lowercase, occurs_at, owned, to_lowercase};

verus! {

/// An application entry.
#[derive(Debug)]
pub struct AppItem {
    pub id: String,
    pub name: String,
    pub icon: Option<String>,
    pub description: Option<String>,
    pub exec_cmd: Option<String>,
    pub categories: Vec<String>,
    pub keywords: Vec<String>,
    pub is_favorite: bool,
    pub usage_count: u32,
}

/// The views of a list of strings.
pub open spec fn strings_view(v: Seq<String>) -> Seq<Seq<char>> {
    v.map_values(|s: String| s@)
}

/// Whether a query occurs in a name, a description or one of a list of
/// keywords.
pub open spec fn query_found(q: Seq<char>, name: Seq<char>, description: Option<Seq<char>>, keywords: Seq<Seq<char>>) -> bool {
    ||| is_substring(q, name)
    ||| (description matches Some(d) && is_substring(q, d))
    ||| exists|k: int| 0 <= k < keywords.len() && is_substring(q, #[trigger] keywords[k])
}

/// Whether an app matches a search query: the lowercased query occurs in
/// the lowercased name, description or one of the keywords.
pub open spec fn app_matches(a: AppItem, query: Seq<char>) -> bool {
    query_found(
        lowercase(query),
        lowercase(a.name@),
        match a.description { Some(d) => Some(lowercase(d@)), None => None },
        strings_view(a.keywords@).map_values(|k: Seq<char>| lowercase(k)),
    )
}

/// Whether `query` occurs in `name`, in `description` or in one of
/// `keywords` (see `query_found`); callers pass lowercased text to match
/// regardless of case.
pub fn query_found_in(query: &str, name: &str, description: Option<&str>, keywords: &Vec<String>) -> (r: bool)
    ensures
        r == query_found(query@, name@, match description { Some(d) => Some(d@), None => None }, strings_view(keywords@)),
{
    if contains_str(name, query) {
        return true;
    }
    match description {
        Some(d) => {
            if contains_str(d, query) {
                return true;
            }
        },
        None => {},
    }
    let ghost ks = strings_view(keywords@);
    let mut i: usize = 0;
    while i < keywords.len()
        invariant
            i <= keywords@.len(),
            ks == strings_view(keywords@),
            forall|k: int| 0 <= k < i ==> !is_substring(query@, #[trigger] ks[k]),
        decreases keywords.len() - i,
    {
        if contains_str(keywords[i].as_str(), query) {
            assert(is_substring(query@, ks[i as int]));
            return true;
        }
        i = i + 1;
    }
    false
}

impl AppItem {
    /// An app with the given id and name and nothing else set.
    pub fn new(id: &str, name: &str) -> (r: Self)
        ensures
            r.id@ == id@,
            r.name@ == name@,
            r.icon is None,
            r.description is None,
            r.exec_cmd is None,
            r.categories@.len() == 0,
            r.keywords@.len() == 0,
            !r.is_favorite,
            r.usage_count == 0,
    {
        AppItem {
            id: owned(id),
            name: owned(name),
            icon: None,
            description: None,
            exec_cmd: None,
            categories: Vec::new(),
            keywords: Vec::new(),
            is_favorite: false,
            usage_count: 0,
        }
    }

    /// Set the icon.
    pub fn icon(self, icon: &str) -> (r: Self)
        ensures
            r.icon matches Some(s) && s@ == icon@,
            r == (AppItem { icon: r.icon, ..self }),
    {
        AppItem { icon: Some(owned(icon)), ..self }
    }

    /// Set the description.
    pub fn description(self, desc: &str) -> (r: Self)
        ensures
            r.description matches Some(s) && s@ == desc@,
            r == (AppItem { description: r.description, ..self }),
    {
        AppItem { description: Some(owned(desc)), ..self }
    }

    /// Set the command that launches the app.
    pub fn exec_cmd(self, cmd: &str) -> (r: Self)
        ensures
            r.exec_cmd matches Some(s) && s@ == cmd@,
            r == (AppItem { exec_cmd: r.exec_cmd, ..self }),
    {
        AppItem { exec_cmd: Some(owned(cmd)), ..self }
    }

    /// Append a category.
    pub fn category(self, cat: &str) -> (r: Self)
        ensures
            strings_view(r.categories@) == strings_view(self.categories@).push(cat@),
            r == (AppItem { categories: r.categories, ..self }),
    {
        let mut a = self;
        let ghost before = a.categories@;
        a.categories.push(owned(cat));
        assert(strings_view(a.categories@) =~= strings_view(before).push(cat@));
        a
    }

    /// Append a search keyword.
    pub fn keyword(self, kw: &str) -> (r: Self)
        ensures
            strings_view(r.keywords@) == strings_view(self.keywords@).push(kw@),
            r == (AppItem { keywords: r.keywords, ..self }),
    {
        let mut a = self;
        let ghost before = a.keywords@;
        a.keywords.push(owned(kw));
        assert(strings_view(a.keywords@) =~= strings_view(before).push(kw@));
        a
    }

    /// Mark the app as a favorite or not.
    pub fn favorite(self, is_fav: bool) -> (r: Self)
        ensures
            r == (AppItem { is_favorite: is_fav, ..self }),
    {
        AppItem { is_favorite: is_fav, ..self }
    }

    /// Whether the app matches a search query, ignoring case.
    pub fn matches(&self, query: &str) -> (r: bool)
        ensures
            r == app_matches(*self, query@),
    {
        let q = to_lowercase(query);
        let name = to_lowercase(self.name.as_str());
        let desc: Option<String> = match &self.description {
            Some(d) => Some(to_lowercase(d.as_str())),
            None => None,
        };
        let ghost kv = strings_view(self.keywords@);
        let mut kws: Vec<String> = Vec::new();
        let mut i: usize = 0;
        while i < self.keywords.len()
            invariant
                i <= self.keywords@.len(),
                kv == strings_view(self.keywords@),
                strings_view(kws@) == kv.take(i as int).map_values(|k: Seq<char>| lowercase(k)),
            decreases self.keywords.len() - i,
        {
            let kl = to_lowercase(self.keywords[i].as_str());
            let ghost before = kws@;
            kws.push(kl);
            assert(strings_view(kws@) =~= strings_view(before).push(lowercase(kv[i as int])));
            assert(kv.take(i + 1).map_values(|k: Seq<char>| lowercase(k))
                =~= kv.take(i as int).map_values(|k: Seq<char>| lowercase(k)).push(lowercase(kv[i as int])));
            i = i + 1;
        }
        assert(kv.take(kv.len() as int) =~= kv);
        let d: Option<&str> = match &desc {
            Some(x) => Some(x.as_str()),
            None => None,
        };
        query_found_in(q.as_str(), name.as_str(), d, &kws)
    }
}

/// How the grid arranges its apps.
#[derive(Debug, Clone, Copy, PartialEq, Eq, Structural)]
pub enum GridLayout {
    Fixed,
    AutoFit,
    List,
}

impl Default for GridLayout {
    fn default() -> (r: Self)
        ensures
            r == GridLayout::Fixed,
    {
        GridLayout::Fixed
    }
}

/// Abstract contents of an `AppGrid`.
pub struct AppGridView {
    pub base: BaseView,
    pub apps: Seq<AppItem>,
    pub selected_index: Option<usize>,
    pub layout: GridLayout,
    pub columns: usize,
    pub show_labels: bool,
    pub show_descriptions: bool,
    pub filter: Seq<char>,
}

/// The apps a filter lets through: all of them for an empty filter, else
/// the matching ones, in order.
pub open spec fn filtered(apps: Seq<AppItem>, filter: Seq<char>) -> Seq<AppItem> {
    if filter.len() == 0 { apps } else { apps.filter(|a: AppItem| app_matches(a, filter)) }
}

/// `n` occurs in `s` starting at some position.
pub open spec fn found_somewhere(n: Seq<char>, s: Seq<char>) -> bool {
    exists|k: int| 0 <= k && k + n.len() <= s.len() && #[trigger] s.subrange(k, k + n.len()) == n
}

/// An app matches a query exactly when the lowercased query occurs, at any
/// position, in its lowercased name, in its lowercased description, or in
/// one of its lowercased keywords.
pub proof fn lemma_app_match_anywhere(a: AppItem, query: Seq<char>)
    ensures
        app_matches(a, query) <==> ({
            let q = lowercase(query);
            ||| found_somewhere(q, lowercase(a.name@))
            ||| (a.description matches Some(d) && found_somewhere(q, lowercase(d@)))
            ||| exists|j: int| 0 <= j < a.keywords@.len() && found_somewhere(q, lowercase(#[trigger] a.keywords@[j]@))
        }),
{
    let q = lowercase(query);
    assert forall|s: Seq<char>| is_substring(q, s) <==> found_somewhere(q, s) by {
        if is_substring(q, s) {
            let k = choose|k: int| occurs_at(q, s, k);
            assert(s.subrange(k, k + q.len()) == q);
        }
        if found_somewhere(q, s) {
            let k = choose|k: int| 0 <= k && k + q.len() <= s.len() && #[trigger] s.subrange(k, k + q.len()) == q;
            assert(occurs_at(q, s, k));
        }
    }
    let ks = strings_view(a.keywords@).map_values(|k: Seq<char>| lowercase(k));
    assert forall|j: int| 0 <= j < a.keywords@.len() implies #[trigger] ks[j] == lowercase(a.keywords@[j]@) by {}
    if exists|j: int| 0 <= j < ks.len() && is_substring(q, #[trigger] ks[j]) {
        let j = choose|j: int| 0 <= j < ks.len() && is_substring(q, #[trigger] ks[j]);
        assert(found_somewhere(q, lowercase(a.keywords@[j]@)));
    }
    if exists|j: int| 0 <= j < a.keywords@.len() && found_somewhere(q, lowercase(#[trigger] a.keywords@[j]@)) {
        let j = choose|j: int| 0 <= j < a.keywords@.len() && found_somewhere(q, lowercase(#[trigger] a.keywords@[j]@));
        assert(is_substring(q, ks[j]));
    }
}

/// With a non-empty filter, an app is among the filtered apps exactly when
/// it is one of the apps and matches the filter; with an empty filter
/// every app is.
pub proof fn lemma_filter_keeps_matches(apps: Seq<AppItem>, f: Seq<char>, a: AppItem)
    ensures
        f.len() > 0 ==> (filtered(apps, f).contains(a) <==> apps.contains(a) && app_matches(a, f)),
        f.len() == 0 ==> filtered(apps, f) == apps,
{
    if f.len() > 0 {
        let pred = |x: AppItem| app_matches(x, f);
        if filtered(apps, f).contains(a) {
            apps.lemma_filter_contains_rev(pred, a);
            let j = choose|j: int| 0 <= j < apps.filter(pred).len() && apps.filter(pred)[j] == a;
            apps.lemma_filter_pred(pred, j);
        }
        if apps.contains(a) && app_matches(a, f) {
            let j = choose|j: int| 0 <= j < apps.len() && apps[j] == a;
            apps.lemma_filter_contains(pred, j);
        }
    }
}

/// The items a list of references points to.
pub open spec fn deref_all(s: Seq<&AppItem>) -> Seq<AppItem> {
    s.map_values(|a: &AppItem| *a)
}

/// The selection, when there is one, can be stepped past.
pub open spec fn grid_wf(v: AppGridView) -> bool {
    v.selected_index matches Some(i) ==> i < usize::MAX
}

/// A grid of application icons.
pub struct AppGrid {
    base: WidgetBase,
    apps: Vec<AppItem>,
    selected_index: Option<usize>,
    layout: GridLayout,
    columns: usize,
    show_labels: bool,
    show_descriptions: bool,
    filter: String,
}

impl View for AppGrid {
    type V = AppGridView;

    closed spec fn view(&self) -> AppGridView {
        AppGridView {
            base: self.base@,
            apps: self.apps@,
            selected_index: self.selected_index,
            layout: self.layout,
            columns: self.columns,
            show_labels: self.show_labels,
            show_descriptions: self.show_descriptions,
            filter: self.filter@,
        }
    }
}

impl AppGrid {
    /// Whether the selection can be stepped past (see `grid_wf`); the
    /// grid's own operations keep this so.
    pub fn well_formed(&self) -> (r: bool)
        ensures
            r == grid_wf(self@),
    {
        match self.selected_index {
            Some(i) => i < usize::MAX,
            None => true,
        }
    }

    /// An empty four-column grid with labels and descriptions shown.
    pub fn new(ids: &mut WidgetIds) -> (r: Self)
        ensures
            r@.base.id == old(ids)@,
            final(ids)@ == succ_id(old(ids)@),
            r@.base.classes == seq!["app-grid"@],
            r@.base.element_id is None,
            r@.apps.len() == 0,
            r@.selected_index is None,
            r@.layout == GridLayout::Fixed,
            r@.columns == 4,
            r@.show_labels,
            r@.show_descriptions,
            r@.filter.len() == 0,
            grid_wf(r@),
    {
        AppGrid {
            base: WidgetBase::new(ids).with_class("app-grid"),
            apps: Vec::new(),
            selected_index: None,
            layout: GridLayout::Fixed,
            columns: 4,
            show_labels: true,
            show_descriptions: true,
            filter: String::new(),
        }
    }

    /// Replace the apps; the selection index is kept (a selection past the
    /// filtered apps selects nothing).
    pub fn apps(self, apps: Vec<AppItem>) -> (r: Self)
        ensures
            r@ == (AppGridView { apps: apps@, ..self@ }),
            grid_wf(self@) ==> grid_wf(r@),
    {
        AppGrid { apps, ..self }
    }

    /// Append an app.
    pub fn app(self, app: AppItem) -> (r: Self)
        ensures
            r@ == (AppGridView { apps: self@.apps.push(app), ..self@ }),
            grid_wf(self@) ==> grid_wf(r@),
    {
        let mut g = self;
        g.apps.push(app);
        g
    }

    /// Set the layout.
    pub fn layout(self, layout: GridLayout) -> (r: Self)
        ensures
            r@ == (AppGridView { layout, ..self@ }),
    {
        AppGrid { layout, ..self }
    }

    /// Set the number of columns (at least one).
    pub fn columns(self, cols: usize) -> (r: Self)
        ensures
            r@ == (AppGridView { columns: if cols >= 1 { cols } else { 1 }, ..self@ }),
    {
        AppGrid { columns: if cols >= 1 { cols } else { 1 }, ..self }
    }

    /// Set whether labels show.
    pub fn show_labels(self, show: bool) -> (r: Self)
        ensures
            r@ == (AppGridView { show_labels: show, ..self@ }),
    {
        AppGrid { show_labels: show, ..self }
    }

    /// Set whether descriptions show.
    pub fn show_descriptions(self, show: bool) -> (r: Self)
        ensures
            r@ == (AppGridView { show_descriptions: show, ..self@ }),
    {
        AppGrid { show_descriptions: show, ..self }
    }

    /// Set the search filter.
    pub fn filter(self, query: &str) -> (r: Self)
        ensures
            r@ == (AppGridView { filter: query@, ..self@ }),
    {
        AppGrid { filter: owned(query), ..self }
    }

    /// The apps that pass the filter, in order.
    pub fn filtered_apps(&self) -> (r: Vec<&AppItem>)
        ensures
            deref_all(r@) == filtered(self@.apps, self@.filter),
    {
        let mut r: Vec<&AppItem> = Vec::new();
        let empty = self.filter.as_str().is_empty();
        let ghost pred = |a: AppItem| app_matches(a, self@.filter);
        let mut i: usize = 0;
        while i < self.apps.len()
            invariant
                i <= self.apps@.len(),
                pred == (|a: AppItem| app_matches(a, self@.filter)),
                empty == (self@.filter.len() == 0),
                deref_all(r@) == (if empty { self@.apps.take(i as int) } else { self@.apps.take(i as int).filter(pred) }),
            decreases self.apps.len() - i,
        {
            proof {
                reveal_with_fuel(Seq::filter, 1);
                assert(self@.apps.take(i + 1).drop_last() =~= self@.apps.take(i as int));
                assert(self@.apps.take(i + 1).last() == self@.apps[i as int]);
            }
            let ghost before = r@;
            if empty || self.apps[i].matches(self.filter.as_str()) {
                r.push(&self.apps[i]);
                assert(deref_all(r@) =~= deref_all(before).push(self@.apps[i as int]));
            }
            proof {
                if empty {
                    assert(deref_all(r@) =~= self@.apps.take(i + 1));
                }
            }
            i = i + 1;
        }
        assert(self@.apps.take(self@.apps.len() as int) =~= self@.apps);
        r
    }

    /// Set the search filter and clear the selection.
    pub fn set_filter(&mut self, query: &str)
        ensures
            final(self)@ == (AppGridView { filter: query@, selected_index: None, ..old(self)@ }),
    {
        self.filter = owned(query);
        self.selected_index = None;
    }

    /// Select the next filtered app, wrapping to the first; selects the
    /// first when nothing is selected. Does nothing when no app passes the filter.
    pub fn select_next(&mut self)
        requires
            grid_wf(old(self)@),
        ensures
            grid_wf(final(self)@),
            ({
                let n = filtered(old(self)@.apps, old(self)@.filter).len();
                final(self)@ == (AppGridView {
                    selected_index: if n == 0 {
                        old(self)@.selected_index
                    } else {
                        Some(match old(self)@.selected_index {
                            Some(i) => ((i + 1) % (n as int)) as usize,
                            None => 0usize,
                        })
                    },
                    ..old(self)@
                })
            }),
    {
        let n = self.filtered_apps().len();
        proof {
            let pred = |a: AppItem| app_matches(a, self@.filter);
            self@.apps.lemma_filter_len(pred);
        }
        if n == 0 {
            return;
        }
        let total = self.apps.len();
        assert(total == self@.apps.len());
        self.selected_index = Some(match self.selected_index {
            Some(i) => (i + 1) % n,
            None => 0,
        });
    }

    /// Select the previous filtered app, wrapping to the last; selects the
    /// last when nothing or the first is selected. Does nothing when no app
    /// passes the filter.
    pub fn select_prev(&mut self)
        requires
            grid_wf(old(self)@),
        ensures
            grid_wf(final(self)@),
            ({
                let n = filtered(old(self)@.apps, old(self)@.filter).len();
                final(self)@ == (AppGridView {
                    selected_index: if n == 0 {
                        old(self)@.selected_index
                    } else {
                        Some(match old(self)@.selected_index {
                            Some(i) => if i == 0 { (n - 1) as usize } else { (i - 1) as usize },
                            None => (n - 1) as usize,
                        })
                    },
                    ..old(self)@
                })
            }),
    {
        let n = self.filtered_apps().len();
        proof {
            let pred = |a: AppItem| app_matches(a, self@.filter);
            self@.apps.lemma_filter_len(pred);
        }
        if n == 0 {
            return;
        }
        self.selected_index = Some(match self.selected_index {
            Some(i) => if i == 0 { n - 1 } else { i - 1 },
            None => n - 1,
        });
    }

    /// The selected app among the filtered ones, if any.
    pub fn selected_app(&self) -> (r: Option<&AppItem>)
        ensures
            ({
                let f = filtered(self@.apps, self@.filter);
                r == (match self@.selected_index {
                    Some(i) => if i < f.len() { Some(&f[i as int]) } else { None },
                    None => None,
                })
            }),
    {
        match self.selected_index {
            Some(i) => {
                let f = self.filtered_apps();
                if i < f.len() {
                    assert(deref_all(f@)[i as int] == *f@[i as int]);
                    Some(f[i])
                } else {
                    None
                }
            },
            None => None,
        }
    }

    /// Add a CSS class.
    pub fn class(self, class: &str) -> (r: Self)
        ensures
            r@ == (AppGridView { base: BaseView { classes: added(self@.base.classes, class@), ..self@.base }, ..self@ }),
    {
        let mut g = self;
        g.base.classes.add(class);
        g
    }

    /// Set the element ID.
    pub fn id(self, id: &str) -> (r: Self)
        ensures
            r@ == (AppGridView { base: BaseView { element_id: Some(id@), ..self@.base }, ..self@ }),
    {
        let mut g = self;
        g.base.element_id = Some(owned(id));
        g
    }
}

impl Widget for AppGrid {
    fn id(&self) -> (r: WidgetId)
        ensures
            r == self@.base.id,
    {
        self.base.id
    }

    fn widget_type_name(&self) -> (r: &'static str)
        ensures
            r@ == "app-grid"@,
    {
        "app-grid"
    }

    fn element_id(&self) -> (r: Option<&str>)
        ensures
            match r {
                Some(s) => self@.base.element_id == Some(s@),
                None => self@.base.element_id is None,
            },
    {
        self.base.element_id_str()
    }

    fn classes(&self) -> (r: &ClassList)
        ensures
            r@ == self@.base.classes,
    {
        &self.base.classes
    }

    fn state(&self) -> (r: WidgetState)
        ensures
            r == self@.base.state,
    {
        self.base.state
    }
}

} // verus!
