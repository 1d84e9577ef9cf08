//! Bookmark bar widget for the browser chrome.
use vstd::prelude::*;

use super::{BaseView, EventContext, Widget, WidgetBase, WidgetId, WidgetIds, succ_id};
use crate::css::{ClassList, WidgetState};
use crate::event::{is_left, left_button, EventResult, MouseEventKind};
use crate::text::{opt_view, owned, str_eq, truncate_with_ellipsis, truncated};

verus! {

/// A bookmark or bookmark folder.
#[derive(Debug)]
pub struct Bookmark {
    pub id: String,
    pub title: String,
    pub url: String,
    pub favicon: Option<String>,
    pub is_folder: bool,
}

impl Bookmark {
    /// A bookmark to `url`.
    pub fn new(id: &str, title: &str, url: &str) -> (r: Self)
        ensures
            r.id@ == id@,
            r.title@ == title@,
            r.url@ == url@,
            r.favicon is None,
            !r.is_folder,
    {
        Bookmark { id: owned(id), title: owned(title), url: owned(url), favicon: None, is_folder: false }
    }

    /// A bookmark folder (it has no URL).
    pub fn folder(id: &str, title: &str) -> (r: Self)
        ensures
            r.id@ == id@,
            r.title@ == title@,
            r.url@.len() == 0,
            r.favicon is None,
            r.is_folder,
    {
        Bookmark { id: owned(id), title: owned(title), url: String::new(), favicon: None, is_folder: true }
    }

    /// Set the favicon.
    pub fn favicon(self, favicon: &str) -> (r: Self)
        ensures
            r.favicon matches Some(f) && f@ == favicon@,
            r == (Bookmark { favicon: r.favicon, ..self }),
    {
        Bookmark { favicon: Some(owned(favicon)), ..self }
    }

    /// The title shortened to at most `max_chars` characters, ending in an
    /// ellipsis when it was cut.
    pub fn display_title(&self, max_chars: usize) -> (r: String)
        requires
            max_chars >= 1 || self.title@.len() == 0,
        ensures
            r@ == truncated(self.title@, max_chars as nat),
    {
        truncate_with_ellipsis(self.title.as_str(), max_chars)
    }
}

/// What a pointer event on the bookmark bar asks of the application.
#[derive(Debug)]
pub enum BookmarkBarAction {
    /// Nothing to do.
    Nothing,
    /// Open the given URL.
    Open(String),
}

/// Abstract contents of a `BookmarkBar`.
pub struct BookmarkBarView {
    pub base: BaseView,
    pub bookmarks: Seq<Bookmark>,
    pub hovered_id: Option<Seq<char>>,
}

/// Bookmark bar widget.
pub struct BookmarkBar {
    base: WidgetBase,
    bookmarks: Vec<Bookmark>,
    hovered_id: Option<String>,
}

impl View for BookmarkBar {
    type V = BookmarkBarView;

    closed spec fn view(&self) -> BookmarkBarView {
        BookmarkBarView { base: self.base@, bookmarks: self.bookmarks@, hovered_id: opt_view(&self.hovered_id) }
    }
}

/// `k` is the first bookmark with the id `id`.
pub open spec fn first_bookmark_with_id(s: Seq<Bookmark>, id: Seq<char>, k: int) -> bool {
    &&& 0 <= k < s.len()
    &&& s[k].id@ == id
    &&& forall|j: int| 0 <= j < k ==> s[j].id@ != id
}

/// The outcome of a left press while the bookmark with id `id` is
/// hovered: handled, and opening the first bookmark with that id unless it
/// is a folder.
pub open spec fn click_outcome(s: Seq<Bookmark>, id: Seq<char>, r: (EventResult, BookmarkBarAction)) -> bool {
    &&& r.0 == EventResult::Handled
    &&& match r.1 {
        BookmarkBarAction::Open(u) => exists|k: int| {
            &&& #[trigger] first_bookmark_with_id(s, id, k)
            &&& !s[k].is_folder
            &&& u@ == s[k].url@
        },
        BookmarkBarAction::Nothing => forall|k: int| #[trigger] first_bookmark_with_id(s, id, k) ==> s[k].is_folder,
    }
}

/// Decides a left press on the hovered bookmark `id`.
fn click_bookmark(bookmarks: &Vec<Bookmark>, id: &str) -> (r: (EventResult, BookmarkBarAction))
    ensures
        click_outcome(bookmarks@, id@, r),
{
    match find_bookmark(bookmarks, id) {
        Some(k) => {
            proof {
                assert forall|k2: int| first_bookmark_with_id(bookmarks@, id@, k2) implies k2 == k by {
                    if k2 < k {
                        assert(bookmarks@[k2].id@ != id@);
                    } else if k2 > k {
                        assert(bookmarks@[k as int].id@ != id@);
                    }
                }
            }
            if !bookmarks[k].is_folder {
                let u = owned(bookmarks[k].url.as_str());
                assert(first_bookmark_with_id(bookmarks@, id@, k as int));
                (EventResult::Handled, BookmarkBarAction::Open(u))
            } else {
                (EventResult::Handled, BookmarkBarAction::Nothing)
            }
        },
        None => (EventResult::Handled, BookmarkBarAction::Nothing),
    }
}

/// The position of the first bookmark with the id `id`, if any.
fn find_bookmark(bookmarks: &Vec<Bookmark>, id: &str) -> (r: Option<usize>)
    ensures
        match r {
            Some(k) => first_bookmark_with_id(bookmarks@, id@, k as int),
            None => forall|j: int| 0 <= j < bookmarks@.len() ==> bookmarks@[j].id@ != id@,
        },
{
    let mut i: usize = 0;
    while i < bookmarks.len()
        invariant
            i <= bookmarks@.len(),
            forall|j: int| 0 <= j < i ==> bookmarks@[j].id@ != id@,
        decreases bookmarks.len() - i,
    {
        if str_eq(bookmarks[i].id.as_str(), id) {
            return Some(i);
        }
        i = i + 1;
    }
    None
}

impl BookmarkBar {
    /// An empty bookmark bar.
    pub fn new(ids: &mut WidgetIds) -> (r: Self)
        ensures
            r@.base.id == old(ids)@,
            final(ids)@ == succ_id(old(ids)@),
            r@.base.classes == seq!["bookmark-bar"@],
            r@.base.element_id is None,
            r@.bookmarks.len() == 0,
            r@.hovered_id is None,
    {
        BookmarkBar { base: WidgetBase::new(ids).with_class("bookmark-bar"), bookmarks: Vec::new(), hovered_id: None }
    }

    /// Append a bookmark.
    pub fn bookmark(self, bookmark: Bookmark) -> (r: Self)
        ensures
            r@ == (BookmarkBarView { bookmarks: self@.bookmarks.push(bookmark), ..self@ }),
    {
        let mut b = self;
        b.bookmarks.push(bookmark);
        b
    }

    /// Replace the bookmarks.
    pub fn bookmarks(self, bookmarks: Vec<Bookmark>) -> (r: Self)
        ensures
            r@ == (BookmarkBarView { bookmarks: bookmarks@, ..self@ }),
    {
        BookmarkBar { bookmarks, ..self }
    }

    /// The id of the hovered bookmark, if any.
    pub fn hovered_id(&self) -> (r: Option<&str>)
        ensures
            match r {
                Some(s) => self@.hovered_id == Some(s@),
                None => self@.hovered_id is None,
            },
    {
        match &self.hovered_id {
            Some(s) => Some(s.as_str()),
            None => None,
        }
    }

    /// Handles a pointer event. `in_bounds` tells whether the pointer lies
    /// in the bar and `hit` which bookmark lies under it (none when the bar
    /// has no such bookmark). A move over the
    /// bar hovers that bookmark (or none); a move off the bar clears the
    /// hover; a left press with a hovered bookmark opens it unless it is a
    /// folder.
    pub fn handle_pointer(
        &mut self,
        kind: MouseEventKind,
        button: Option<crate::event::MouseButton>,
        in_bounds: bool,
        hit: Option<usize>,
        ctx: &mut EventContext,
    ) -> (r: (EventResult, BookmarkBarAction))
        ensures
            final(self)@.base == old(self)@.base,
            final(self)@.bookmarks == old(self)@.bookmarks,
            final(ctx).focus == old(ctx).focus,
            kind == MouseEventKind::Move && in_bounds ==> {
                let h = match hit {
                    Some(i) => if i < old(self)@.bookmarks.len() { Some(old(self)@.bookmarks[i as int].id@) } else { None },
                    None => None,
                };
                &&& final(self)@.hovered_id == h
                &&& final(ctx).should_redraw == (old(ctx).should_redraw || h != old(self)@.hovered_id)
                &&& r.0 == EventResult::Handled
                &&& r.1 is Nothing
            },
            kind == MouseEventKind::Move && !in_bounds ==> {
                &&& final(self)@.hovered_id is None
                &&& final(ctx).should_redraw == (old(ctx).should_redraw || old(self)@.hovered_id is Some)
                &&& r.0 == EventResult::Ignored
                &&& r.1 is Nothing
            },
            kind == MouseEventKind::Down && is_left(button) && old(self)@.hovered_id is Some ==> {
                &&& final(self)@ == old(self)@
                &&& final(ctx).should_redraw == old(ctx).should_redraw
                &&& click_outcome(old(self)@.bookmarks, old(self)@.hovered_id->0, r)
            },
            !(kind == MouseEventKind::Move) && !(kind == MouseEventKind::Down && is_left(button)
                && old(self)@.hovered_id is Some) ==> {
                &&& final(self)@ == old(self)@
                &&& final(ctx).should_redraw == old(ctx).should_redraw
                &&& r.0 == EventResult::Ignored
                &&& r.1 is Nothing
            },
    {
        match kind {
            MouseEventKind::Move => {
                if in_bounds {
                    let found: Option<String> = match hit {
                        Some(i) => if i < self.bookmarks.len() { Some(owned(self.bookmarks[i].id.as_str())) } else { None },
                        None => None,
                    };
                    let same = match (&found, &self.hovered_id) {
                        (Some(a), Some(b)) => str_eq(a.as_str(), b.as_str()),
                        (None, None) => true,
                        _ => false,
                    };
                    if !same {
                        self.hovered_id = found;
                        ctx.request_redraw();
                    }
                    (EventResult::Handled, BookmarkBarAction::Nothing)
                } else {
                    if self.hovered_id.is_some() {
                        self.hovered_id = None;
                        ctx.request_redraw();
                    }
                    (EventResult::Ignored, BookmarkBarAction::Nothing)
                }
            },
            MouseEventKind::Down => {
                if left_button(button) {
                    match &self.hovered_id {
                        Some(id) => click_bookmark(&self.bookmarks, id.as_str()),
                        None => (EventResult::Ignored, BookmarkBarAction::Nothing),
                    }
                } else {
                    (EventResult::Ignored, BookmarkBarAction::Nothing)
                }
            },
            _ => (EventResult::Ignored, BookmarkBarAction::Nothing),
        }
    }
}

impl Widget for BookmarkBar {
    fn id(&self) -> (r: WidgetId)
        ensures
            r == self@.base.id,
    {
        self.base.id
    }

    fn widget_type_name(&self) -> (r: &'static str)
        ensures
            r@ == "bookmark-bar"@,
    {
        "bookmark-bar"
    }

    fn element_id(&self) -> (r: Option<&str>)
        ensures
            match r {
                Some(s) => self@.base.element_id == Some(s@),
                None => self@.base.element_id is None,
            },
    {
        self.base.element_id_str()
    }

    fn classes(&self) -> (r: &ClassList)
        ensures
            r@ == self@.base.classes,
    {
        &self.base.classes
    }

    fn state(&self) -> (r: WidgetState)
        ensures
            r == self@.base.state,
    {
        self.base.state
    }
}

} // verus!
