//! Find-in-page bar.
use vstd::prelude::*;

use super::{BaseView, EventContext, Widget, WidgetBase, WidgetId, WidgetIds, succ_id};
use crate::css::{ClassList, WidgetState};
use crate::event::{EventResult, Key, KeyEvent, KeyEventKind};
use crate::text::{char_count, dec, insert_at, inserted, owned, push_decimal, push_str, remove_at, removed};

verus! {

/// Which part of the find bar a left press hit.
#[derive(Debug, Clone, Copy, PartialEq, Eq, Structural)]
pub enum FindBarHit {
    Input,
    Close,
    Prev,
    Next,
    Other,
}

/// What an event asks of the application.
#[derive(Debug, Clone, Copy, PartialEq, Eq, Structural)]
pub enum FindBarAction {
    Nothing,
    /// The query changed: search for it.
    Find,
    /// Go to the next match.
    Next,
    /// Go to the previous match.
    Prev,
    /// Close the bar.
    Close,
}

/// Abstract contents of a `FindBar`.
pub struct FindBarView {
    pub base: BaseView,
    pub query: Seq<char>,
    pub is_focused: bool,
    pub cursor: nat,
    pub match_count: usize,
    pub current_match: usize,
    pub case_sensitive: bool,
}

/// Find-in-page bar widget.
pub struct FindBar {
    base: WidgetBase,
    query: String,
    is_focused: bool,
    cursor_position: usize,
    match_count: usize,
    current_match: usize,
    case_sensitive: bool,
}

impl View for FindBar {
    type V = FindBarView;

    closed spec fn view(&self) -> FindBarView {
        FindBarView {
            base: self.base@,
            query: self.query@,
            is_focused: self.is_focused,
            cursor: self.cursor_position as nat,
            match_count: self.match_count,
            current_match: self.current_match,
            case_sensitive: self.case_sensitive,
        }
    }
}

/// The cursor lies within the query.
pub open spec fn find_wf(v: FindBarView) -> bool {
    v.cursor <= v.query.len()
}

/// The match status line: empty without a query, `No matches`, or `I of N`.
pub open spec fn match_status_text(v: FindBarView) -> Seq<char> {
    if v.query.len() == 0 {
        Seq::empty()
    } else if v.match_count == 0 {
        "No matches"@
    } else {
        dec(v.current_match as nat) + " of "@ + dec(v.match_count as nat)
    }
}

impl FindBar {
    /// Whether the cursor lies within the query (see `find_wf`); the bar's
    /// own operations keep this so.
    pub fn well_formed(&self) -> (r: bool)
        ensures
            r == find_wf(self@),
    {
        self.cursor_position <= char_count(self.query.as_str())
    }

    /// A focused, empty find bar.
    pub fn new(ids: &mut WidgetIds) -> (r: Self)
        ensures
            r@.base.id == old(ids)@,
            final(ids)@ == succ_id(old(ids)@),
            r@.base.classes == seq!["find-bar"@],
            r@.base.element_id is None,
            r@.query.len() == 0,
            r@.is_focused,
            r@.cursor == 0,
            r@.match_count == 0,
            r@.current_match == 0,
            !r@.case_sensitive,
            find_wf(r@),
    {
        FindBar {
            base: WidgetBase::new(ids).with_class("find-bar"),
            query: String::new(),
            is_focused: true,
            cursor_position: 0,
            match_count: 0,
            current_match: 0,
            case_sensitive: false,
        }
    }

    /// Set the query; the cursor goes to its end.
    pub fn query(self, query: &str) -> (r: Self)
        ensures
            r@ == (FindBarView { query: query@, cursor: query@.len(), ..self@ }),
            find_wf(r@),
    {
        let n = char_count(query);
        FindBar { query: owned(query), cursor_position: n, ..self }
    }

    /// Set the number of matches.
    pub fn match_count(self, count: usize) -> (r: Self)
        ensures
            r@ == (FindBarView { match_count: count, ..self@ }),
    {
        FindBar { match_count: count, ..self }
    }

    /// Set the current match number.
    pub fn current_match(self, index: usize) -> (r: Self)
        ensures
            r@ == (FindBarView { current_match: index, ..self@ }),
    {
        FindBar { current_match: index, ..self }
    }

    /// Set whether matching is case sensitive.
    pub fn case_sensitive(self, enabled: bool) -> (r: Self)
        ensures
            r@ == (FindBarView { case_sensitive: enabled, ..self@ }),
    {
        FindBar { case_sensitive: enabled, ..self }
    }

    /// The query.
    pub fn get_query(&self) -> (r: &str)
        ensures
            r@ == self@.query,
    {
        self.query.as_str()
    }

    /// The match status line (see `match_status_text`).
    pub fn match_status(&self) -> (r: String)
        ensures
            r@ == match_status_text(self@),
    {
        if char_count(self.query.as_str()) == 0 {
            String::new()
        } else if self.match_count == 0 {
            owned("No matches")
        } else {
            let mut t = String::new();
            push_decimal(&mut t, self.current_match as u64);
            push_str(&mut t, " of ");
            push_decimal(&mut t, self.match_count as u64);
            t
        }
    }

    /// Handles a left press at the part `hit`: the input takes the focus,
    /// the close button closes, and the previous and next buttons step
    /// through matches when there are any.
    pub fn handle_press(&mut self, hit: FindBarHit, ctx: &mut EventContext) -> (r: (EventResult, FindBarAction))
        ensures
            match hit {
                FindBarHit::Input => {
                    &&& final(self)@ == (FindBarView { is_focused: true, ..old(self)@ })
                    &&& final(ctx).focus == Some(old(self)@.base.id)
                    &&& final(ctx).should_redraw
                    &&& r == (EventResult::Handled, FindBarAction::Nothing)
                },
                FindBarHit::Close => {
                    &&& final(self)@ == old(self)@
                    &&& final(ctx).focus == old(ctx).focus && final(ctx).should_redraw == old(ctx).should_redraw
                    &&& r == (EventResult::Handled, FindBarAction::Close)
                },
                FindBarHit::Prev | FindBarHit::Next => {
                    &&& final(self)@ == old(self)@
                    &&& final(ctx).focus == old(ctx).focus && final(ctx).should_redraw == old(ctx).should_redraw
                    &&& r == (if old(self)@.match_count > 0 {
                        (EventResult::Handled, if hit == FindBarHit::Prev { FindBarAction::Prev } else { FindBarAction::Next })
                    } else {
                        (EventResult::Ignored, FindBarAction::Nothing)
                    })
                },
                FindBarHit::Other => {
                    &&& final(self)@ == old(self)@
                    &&& final(ctx).focus == old(ctx).focus && final(ctx).should_redraw == old(ctx).should_redraw
                    &&& r == (EventResult::Ignored, FindBarAction::Nothing)
                },
            },
    {
        match hit {
            FindBarHit::Input => {
                self.is_focused = true;
                ctx.request_focus(self.base.id);
                ctx.request_redraw();
                (EventResult::Handled, FindBarAction::Nothing)
            },
            FindBarHit::Close => (EventResult::Handled, FindBarAction::Close),
            FindBarHit::Prev => if self.match_count > 0 {
                (EventResult::Handled, FindBarAction::Prev)
            } else {
                (EventResult::Ignored, FindBarAction::Nothing)
            },
            FindBarHit::Next => if self.match_count > 0 {
                (EventResult::Handled, FindBarAction::Next)
            } else {
                (EventResult::Ignored, FindBarAction::Nothing)
            },
            FindBarHit::Other => (EventResult::Ignored, FindBarAction::Nothing),
        }
    }

    /// Handles a key press while the bar has the focus: Escape closes,
    /// Enter goes to the next match when there is one, Backspace deletes
    /// before the cursor, Left and Right move it, and typed text is
    /// inserted at the cursor. Editing asks for a new search.
    pub fn handle_key(&mut self, ev: &KeyEvent, ctx: &mut EventContext) -> (r: (EventResult, FindBarAction))
        requires
            find_wf(old(self)@),
        ensures
            find_wf(final(self)@),
            final(ctx).focus == old(ctx).focus,
            !(old(self)@.is_focused && ev.kind == KeyEventKind::Down) ==> {
                &&& final(self)@ == old(self)@
                &&& r == (EventResult::Ignored, FindBarAction::Nothing)
                &&& final(ctx).should_redraw == old(ctx).should_redraw
            },
            old(self)@.is_focused && ev.kind == KeyEventKind::Down ==> {
                let v = old(self)@;
                let q = v.query;
                let c = v.cursor;
                match ev.key {
                    Key::Escape => final(self)@ == v && r == (EventResult::Handled, FindBarAction::Close)
                        && final(ctx).should_redraw == old(ctx).should_redraw,
                    Key::Enter => final(self)@ == v && final(ctx).should_redraw == old(ctx).should_redraw
                        && r == (EventResult::Handled, if v.match_count > 0 { FindBarAction::Next } else { FindBarAction::Nothing }),
                    Key::Backspace => if c > 0 {
                        &&& final(self)@ == (FindBarView { query: removed(q, c - 1), cursor: (c - 1) as nat, ..v })
                        &&& r == (EventResult::Handled, FindBarAction::Find)
                        &&& final(ctx).should_redraw
                    } else {
                        final(self)@ == v && r == (EventResult::Handled, FindBarAction::Nothing)
                            && final(ctx).should_redraw == old(ctx).should_redraw
                    },
                    Key::Left | Key::Right => {
                        &&& final(self)@ == (FindBarView {
                            cursor: if ev.key == Key::Left {
                                if c > 0 { (c - 1) as nat } else { c }
                            } else {
                                if c < q.len() { c + 1 } else { c }
                            },
                            ..v
                        })
                        &&& r == (EventResult::Handled, FindBarAction::Nothing)
                        &&& final(ctx).should_redraw
                    },
                    _ => match ev.text {
                        Some(s) => {
                            &&& final(self)@ == (FindBarView { query: inserted(q, c as int, s@), cursor: c + s@.len(), ..v })
                            &&& r == (EventResult::Handled, FindBarAction::Find)
                            &&& final(ctx).should_redraw
                        },
                        None => final(self)@ == v && r == (EventResult::Ignored, FindBarAction::Nothing)
                            && final(ctx).should_redraw == old(ctx).should_redraw,
                    },
                }
            },
    {
        if !(self.is_focused && ev.kind == KeyEventKind::Down) {
            return (EventResult::Ignored, FindBarAction::Nothing);
        }
        match ev.key {
            Key::Escape => (EventResult::Handled, FindBarAction::Close),
            Key::Enter => {
                if self.match_count > 0 {
                    (EventResult::Handled, FindBarAction::Next)
                } else {
                    (EventResult::Handled, FindBarAction::Nothing)
                }
            },
            Key::Backspace => {
                if self.cursor_position > 0 {
                    self.query = remove_at(self.query.as_str(), self.cursor_position - 1);
                    self.cursor_position = self.cursor_position - 1;
                    ctx.request_redraw();
                    (EventResult::Handled, FindBarAction::Find)
                } else {
                    (EventResult::Handled, FindBarAction::Nothing)
                }
            },
            Key::Left => {
                if self.cursor_position > 0 {
                    self.cursor_position = self.cursor_position - 1;
                }
                ctx.request_redraw();
                (EventResult::Handled, FindBarAction::Nothing)
            },
            Key::Right => {
                if self.cursor_position < char_count(self.query.as_str()) {
                    self.cursor_position = self.cursor_position + 1;
                }
                ctx.request_redraw();
                (EventResult::Handled, FindBarAction::Nothing)
            },
            _ => {
                match &ev.text {
                    Some(s) => {
                        let k = char_count(s.as_str());
                        let t = insert_at(self.query.as_str(), self.cursor_position, s.as_str());
                        let total = char_count(t.as_str());
                        assert(total == self.cursor_position + k + (old(self)@.query.len() - self.cursor_position));
                        self.query = t;
                        self.cursor_position = self.cursor_position + k;
                        ctx.request_redraw();
                        (EventResult::Handled, FindBarAction::Find)
                    },
                    None => (EventResult::Ignored, FindBarAction::Nothing),
                }
            },
        }
    }
}

impl Widget for FindBar {
    fn id(&self) -> (r: WidgetId)
        ensures
            r == self@.base.id,
    {
        self.base.id
    }

    fn widget_type_name(&self) -> (r: &'static str)
        ensures
            r@ == "find-bar"@,
    {
        "find-bar"
    }

    fn element_id(&self) -> (r: Option<&str>)
        ensures
            match r {
                Some(s) => self@.base.element_id == Some(s@),
                None => self@.base.element_id is None,
            },
    {
        self.base.element_id_str()
    }

    fn classes(&self) -> (r: &ClassList)
        ensures
            r@ == self@.base.classes,
    {
        &self.base.classes
    }

    /// The base state with `focused` reflecting the bar's focus.
    fn state(&self) -> (r: WidgetState)
        ensures
            r == (WidgetState { focused: self@.is_focused, ..self@.base.state }),
    {
        let mut s = self.base.state;
        s.focused = self.is_focused;
        s
    }
}

} // verus!
