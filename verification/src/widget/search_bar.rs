//! Search bar widget: a query with icon, clear button and suggestions.
use vstd::prelude::*;

use super::{BaseView, Widget, WidgetBase, WidgetId, WidgetIds, succ_id};
use crate::css::{added, cleared_state, ClassList, WidgetState};
use crate::text::{opt_view, owned};

verus! {

/// Abstract contents of a `SearchSuggestion`.
pub struct SearchSuggestionView {
    pub id: Seq<char>,
    pub text: Seq<char>,
    pub icon: Option<Seq<char>>,
    pub category: Option<Seq<char>>,
    pub data: Option<Seq<char>>,
}

/// A suggestion offered below the search bar.
#[derive(Debug, Clone)]
pub struct SearchSuggestion {
    pub id: String,
    pub text: String,
    pub icon: Option<String>,
    pub category: Option<String>,
    pub data: Option<String>,
}

impl View for SearchSuggestion {
    type V = SearchSuggestionView;

    open spec fn view(&self) -> SearchSuggestionView {
        SearchSuggestionView {
            id: self.id@,
            text: self.text@,
            icon: opt_view(&self.icon),
            category: opt_view(&self.category),
            data: opt_view(&self.data),
        }
    }
}

impl SearchSuggestion {
    /// A suggestion without icon, category or data.
    pub fn new(id: &str, text: &str) -> (r: Self)
        ensures
            r@ == (SearchSuggestionView { id: id@, text: text@, icon: None, category: None, data: None }),
    {
        SearchSuggestion { id: owned(id), text: owned(text), icon: None, category: None, data: None }
    }

    /// Set the icon.
    pub fn icon(self, icon: &str) -> (r: Self)
        ensures
            r@ == (SearchSuggestionView { icon: Some(icon@), ..self@ }),
    {
        SearchSuggestion { icon: Some(owned(icon)), ..self }
    }

    /// Set the category.
    pub fn category(self, cat: &str) -> (r: Self)
        ensures
            r@ == (SearchSuggestionView { category: Some(cat@), ..self@ }),
    {
        SearchSuggestion { category: Some(owned(cat)), ..self }
    }
}

/// The views of a sequence of suggestions.
pub open spec fn suggestions_view(s: Seq<SearchSuggestion>) -> Seq<SearchSuggestionView> {
    s.map_values(|x: SearchSuggestion| x@)
}

/// Abstract contents of a `SearchBar`.
pub struct SearchBarView {
    pub base: BaseView,
    pub query: Seq<char>,
    pub placeholder: Seq<char>,
    pub suggestions: Seq<SearchSuggestionView>,
    pub suggestions_visible: bool,
    pub selected_index: Option<usize>,
    pub icon: Seq<char>,
    pub show_clear: bool,
    pub is_focused: bool,
}

/// A search input.
#[derive(Debug)]
pub struct SearchBar {
    base: WidgetBase,
    query: String,
    placeholder: String,
    suggestions: Vec<SearchSuggestion>,
    suggestions_visible: bool,
    selected_index: Option<usize>,
    icon: String,
    show_clear: bool,
    is_focused: bool,
}

impl View for SearchBar {
    type V = SearchBarView;

    closed spec fn view(&self) -> SearchBarView {
        SearchBarView {
            base: self.base@,
            query: self.query@,
            placeholder: self.placeholder@,
            suggestions: suggestions_view(self.suggestions@),
            suggestions_visible: self.suggestions_visible,
            selected_index: self.selected_index,
            icon: self.icon@,
            show_clear: self.show_clear,
            is_focused: self.is_focused,
        }
    }
}

/// The most suggestion rows the dropdown shows.
pub const MAX_SUGGESTION_ROWS: usize = 5;

/// Suggestions are shown only while focused and when there are some.
pub open spec fn search_bar_wf(v: SearchBarView) -> bool {
    v.suggestions_visible ==> v.is_focused && v.suggestions.len() > 0
}

impl SearchBar {
    /// An empty, unfocused bar with the placeholder `Search...`, the icon
    /// `🔍`, the clear button and no suggestions.
    pub fn new(ids: &mut WidgetIds) -> (r: Self)
        ensures
            r@.base.id == old(ids)@,
            final(ids)@ == succ_id(old(ids)@),
            r@.base.classes == seq!["search-bar"@],
            r@.base.element_id is None,
            r@.base.state == cleared_state(),
            r@.query == Seq::<char>::empty(),
            r@.placeholder == "Search..."@,
            r@.suggestions == Seq::<SearchSuggestionView>::empty(),
            !r@.suggestions_visible,
            r@.selected_index is None,
            r@.icon == "🔍"@,
            r@.show_clear,
            !r@.is_focused,
            search_bar_wf(r@),
    {
        SearchBar {
            base: WidgetBase::new(ids).with_class("search-bar"),
            query: String::new(),
            placeholder: owned("Search..."),
            suggestions: Vec::new(),
            suggestions_visible: false,
            selected_index: None,
            icon: owned("🔍"),
            show_clear: true,
            is_focused: false,
        }
    }

    /// Set the placeholder text.
    pub fn placeholder(self, text: &str) -> (r: Self)
        ensures
            r@ == (SearchBarView { placeholder: text@, ..self@ }),
    {
        SearchBar { placeholder: owned(text), ..self }
    }

    /// Set the icon.
    pub fn icon(self, icon: &str) -> (r: Self)
        ensures
            r@ == (SearchBarView { icon: icon@, ..self@ }),
    {
        SearchBar { icon: owned(icon), ..self }
    }

    /// Show or hide the clear button.
    pub fn show_clear(self, show: bool) -> (r: Self)
        ensures
            r@ == (SearchBarView { show_clear: show, ..self@ }),
    {
        SearchBar { show_clear: show, ..self }
    }

    /// Set the suggestions.
    pub fn suggestions(self, suggestions: Vec<SearchSuggestion>) -> (r: Self)
        ensures
            r@ == (SearchBarView { suggestions: suggestions_view(suggestions@), ..self@ }),
    {
        SearchBar { suggestions, ..self }
    }

    /// The current query.
    pub fn query(&self) -> (r: &str)
        ensures
            r@ == self@.query,
    {
        self.query.as_str()
    }

    /// Replace the query; the change handler is then told of it.
    pub fn set_query(&mut self, query: &str)
        ensures
            final(self)@ == (SearchBarView { query: query@, ..old(self)@ }),
    {
        self.query = owned(query);
    }

    /// Empty the query; the change handler is then told of the empty text.
    pub fn clear(&mut self)
        ensures
            final(self)@ == (SearchBarView { query: Seq::<char>::empty(), ..old(self)@ }),
    {
        self.query = String::new();
    }

    /// Take the focus; the suggestions show when there are some.
    pub fn focus(&mut self)
        ensures
            final(self)@ == (SearchBarView {
                is_focused: true,
                suggestions_visible: old(self)@.suggestions.len() > 0,
                ..old(self)@
            }),
            search_bar_wf(final(self)@),
    {
        self.is_focused = true;
        self.suggestions_visible = self.suggestions.len() > 0;
    }

    /// Drop the focus and hide the suggestions.
    pub fn blur(&mut self)
        ensures
            final(self)@ == (SearchBarView { is_focused: false, suggestions_visible: false, ..old(self)@ }),
            search_bar_wf(final(self)@),
    {
        self.is_focused = false;
        self.suggestions_visible = false;
    }

    /// Replace the suggestions; they show when focused and not empty, and
    /// no suggestion is selected.
    pub fn set_suggestions(&mut self, suggestions: Vec<SearchSuggestion>)
        ensures
            final(self)@ == (SearchBarView {
                suggestions: suggestions_view(suggestions@),
                suggestions_visible: old(self)@.is_focused && suggestions@.len() > 0,
                selected_index: None,
                ..old(self)@
            }),
            search_bar_wf(final(self)@),
    {
        self.suggestions = suggestions;
        self.suggestions_visible = self.is_focused && self.suggestions.len() > 0;
        self.selected_index = None;
    }

    /// Whether the suggestion dropdown shows.
    pub fn suggestions_visible(&self) -> (r: bool)
        ensures
            r == self@.suggestions_visible,
    {
        self.suggestions_visible
    }

    /// Whether the bar has the focus.
    pub fn is_focused(&self) -> (r: bool)
        ensures
            r == self@.is_focused,
    {
        self.is_focused
    }

    /// The number of suggestion rows the dropdown shows: none when hidden,
    /// else as many as there are suggestions, at most `MAX_SUGGESTION_ROWS`.
    pub fn dropdown_rows(&self) -> (r: usize)
        ensures
            r == (if self@.suggestions_visible && self@.suggestions.len() > 0 {
                if self@.suggestions.len() < MAX_SUGGESTION_ROWS { self@.suggestions.len() } else { MAX_SUGGESTION_ROWS as nat }
            } else {
                0
            }),
    {
        let n = self.suggestions.len();
        if self.suggestions_visible && n > 0 {
            if n < MAX_SUGGESTION_ROWS { n } else { MAX_SUGGESTION_ROWS }
        } else {
            0
        }
    }

    /// The text the bar shows: the placeholder while the query is empty.
    pub fn shown_text(&self) -> (r: &str)
        ensures
            r@ == (if self@.query.len() == 0 { self@.placeholder } else { self@.query }),
    {
        if self.query.as_str().is_empty() {
            self.placeholder.as_str()
        } else {
            self.query.as_str()
        }
    }

    /// Add a CSS class.
    pub fn class(self, class: &str) -> (r: Self)
        ensures
            r@ == (SearchBarView { base: BaseView { classes: added(self@.base.classes, class@), ..self@.base }, ..self@ }),
    {
        let mut c = self;
        c.base.classes.add(class);
        c
    }

    /// Set the element ID.
    pub fn id(self, id: &str) -> (r: Self)
        ensures
            r@ == (SearchBarView { base: BaseView { element_id: Some(id@), ..self@.base }, ..self@ }),
    {
        let mut c = self;
        c.base.element_id = Some(owned(id));
        c
    }
}

impl Widget for SearchBar {
    fn id(&self) -> (r: WidgetId)
        ensures
            r == self@.base.id,
    {
        self.base.id
    }

    fn widget_type_name(&self) -> (r: &'static str)
        ensures
            r@ == "search-bar"@,
    {
        "search-bar"
    }

    fn element_id(&self) -> (r: Option<&str>)
        ensures
            match r {
                Some(s) => self@.base.element_id == Some(s@),
                None => self@.base.element_id is None,
            },
    {
        self.base.element_id_str()
    }

    fn classes(&self) -> (r: &ClassList)
        ensures
            r@ == self@.base.classes,
    {
        &self.base.classes
    }

    fn state(&self) -> (r: WidgetState)
        ensures
            r == self@.base.state,
    {
        self.base.state
    }
}

} // verus!
