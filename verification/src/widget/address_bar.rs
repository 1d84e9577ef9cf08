//! Browser address bar widget with URL input and security indicator.
use vstd::prelude::*;

use super::{BaseView, EventContext, Widget, WidgetBase, WidgetId, WidgetIds, succ_id};
use crate::css::{added, ClassList, WidgetState};
use crate::event::{is_left, left_button, EventResult, Key, KeyEvent, KeyEventKind, MouseEventKind, PointerEvent};
use crate::text::{
    char_count, concat_str, insert_at, contains_char, ends_with, has_char, inserted, is_prefix, owned, remove_at, removed,
    replace_spaces, spaces_replaced, starts_with, strip_prefix, strip_prefix_str, take_chars, trim, trimmed,
};
use crate::theme::ThemeColor;

verus! {

/// Security state of the current page.
#[derive(Debug, Clone, Copy, PartialEq, Eq, Structural)]
pub enum SecurityState {
    Unknown,
    Secure,
    SecureEV,
    Insecure,
    Mixed,
    Dangerous,
}

impl Default for SecurityState {
    fn default() -> (r: Self)
        ensures
            r == SecurityState::Unknown,
    {
        SecurityState::Unknown
    }
}

/// The indicator icon of a security state.
pub open spec fn security_icon(s: SecurityState) -> Seq<char> {
    match s {
        SecurityState::Unknown => "🌐"@,
        SecurityState::Secure | SecurityState::SecureEV => "🔒"@,
        SecurityState::Insecure | SecurityState::Mixed => "⚠️"@,
        SecurityState::Dangerous => "🚫"@,
    }
}

/// The indicator color of a security state.
pub open spec fn security_color(s: SecurityState) -> ThemeColor {
    match s {
        SecurityState::Unknown => ThemeColor::MutedForeground,
        SecurityState::Secure | SecurityState::SecureEV => ThemeColor::Success,
        SecurityState::Insecure | SecurityState::Mixed => ThemeColor::Warning,
        SecurityState::Dangerous => ThemeColor::Destructive,
    }
}

impl SecurityState {
    /// The indicator icon.
    pub fn icon(&self) -> (r: &'static str)
        ensures
            r@ == security_icon(*self),
    {
        match self {
            SecurityState::Unknown => "🌐",
            SecurityState::Secure | SecurityState::SecureEV => "🔒",
            SecurityState::Insecure | SecurityState::Mixed => "⚠️",
            SecurityState::Dangerous => "🚫",
        }
    }

    /// The indicator color.
    pub fn color(&self) -> (r: ThemeColor)
        ensures
            r == security_color(*self),
    {
        match self {
            SecurityState::Unknown => ThemeColor::MutedForeground,
            SecurityState::Secure | SecurityState::SecureEV => ThemeColor::Success,
            SecurityState::Insecure | SecurityState::Mixed => ThemeColor::Warning,
            SecurityState::Dangerous => ThemeColor::Destructive,
        }
    }
}

/// A URL as the bar shows it: without the `https://` or `http://` scheme,
/// without a leading `www.`, and without one trailing `/` unless that is
/// all there is.
pub open spec fn display_url_of(url: Seq<char>) -> Seq<char> {
    let a = if is_prefix("https://"@, url) {
        strip_prefix(url, "https://"@)
    } else {
        strip_prefix(url, "http://"@)
    };
    let b = strip_prefix(a, "www."@);
    if b.len() > 1 && b.last() == '/' { b.drop_last() } else { b }
}

/// Input that reads as an address rather than a search.
pub open spec fn url_like(input: Seq<char>) -> bool {
    (has_char(input, '.') && !has_char(input, ' '))
        || is_prefix("http://"@, input)
        || is_prefix("https://"@, input)
        || is_prefix("about:"@, input)
}

/// Where the bar navigates for a (trimmed, non-empty) input: the input
/// itself when it names a scheme, `https://` + input when it looks like an
/// address, else a search for it.
pub open spec fn navigation_target(input: Seq<char>) -> Seq<char> {
    if url_like(input) {
        if is_prefix("http"@, input) || is_prefix("about:"@, input) {
            input
        } else {
            "https://"@ + input
        }
    } else {
        "https://duckduckgo.com/?q="@ + spaces_replaced(input, '+')
    }
}

/// Renders a URL for display (see `display_url_of`).
pub fn display_url(url: &str) -> (r: String)
    ensures
        r@ == display_url_of(url@),
{
    let a = if starts_with(url, "https://") {
        strip_prefix_str(url, "https://")
    } else {
        strip_prefix_str(url, "http://")
    };
    let b = strip_prefix_str(a.as_str(), "www.");
    let n = char_count(b.as_str());
    if n > 1 && ends_with(b.as_str(), "/") {
        proof {
            reveal_strlit("/");
            assert(b@.subrange(b@.len() - 1, b@.len() as int)[0] == '/');
        }
        let r = take_chars(b.as_str(), n - 1);
        assert(r@ =~= b@.drop_last());
        r
    } else {
        proof {
            reveal_strlit("/");
            if b@.len() > 1 && b@.last() == '/' {
                assert(b@.subrange(b@.len() - 1, b@.len() as int) =~= "/"@);
            }
        }
        b
    }
}

/// Whether an input reads as an address (see `url_like`).
pub fn looks_like_url_str(input: &str) -> (r: bool)
    ensures
        r == url_like(input@),
{
    let dot = contains_char(input, '.');
    let space = contains_char(input, ' ');
    (dot && !space) || starts_with(input, "http://") || starts_with(input, "https://")
        || starts_with(input, "about:")
}

/// The address to navigate to for an input (see `navigation_target`).
pub fn navigation_target_for(input: &str) -> (r: String)
    ensures
        r@ == navigation_target(input@),
{
    if looks_like_url_str(input) {
        if starts_with(input, "http") || starts_with(input, "about:") {
            owned(input)
        } else {
            concat_str("https://", input)
        }
    } else {
        let q = replace_spaces(input, '+');
        concat_str("https://duckduckgo.com/?q=", q.as_str())
    }
}

/// What a key press asks of the application.
#[derive(Debug)]
pub enum AddressBarAction {
    /// Nothing to do.
    Nothing,
    /// Navigate to the given address.
    Navigate(String),
    /// The typed text changed.
    Input,
}

/// Abstract contents of an `AddressBar`.
pub struct AddressBarView {
    pub base: BaseView,
    pub url: Seq<char>,
    pub display_text: Seq<char>,
    pub is_focused: bool,
    pub cursor: nat,
    pub security_state: SecurityState,
    pub placeholder: Seq<char>,
}

/// Browser address bar widget.
pub struct AddressBar {
    base: WidgetBase,
    url: String,
    display_text: String,
    is_focused: bool,
    cursor_position: usize,
    security_state: SecurityState,
    placeholder: String,
}

impl View for AddressBar {
    type V = AddressBarView;

    closed spec fn view(&self) -> AddressBarView {
        AddressBarView {
            base: self.base@,
            url: self.url@,
            display_text: self.display_text@,
            is_focused: self.is_focused,
            cursor: self.cursor_position as nat,
            security_state: self.security_state,
            placeholder: self.placeholder@,
        }
    }
}

/// While the bar has the focus its cursor lies within the text.
pub open spec fn bar_wf(v: AddressBarView) -> bool {
    v.is_focused ==> v.cursor <= v.display_text.len()
}

impl AddressBar {
    /// Whether the bar's cursor lies within its text while focused (see
    /// `bar_wf`); the bar's own operations keep this so.
    pub fn well_formed(&self) -> (r: bool)
        ensures
            r == bar_wf(self@),
    {
        !self.is_focused || self.cursor_position <= char_count(self.display_text.as_str())
    }

    /// An empty, unfocused address bar with the class `address-bar`.
    pub fn new(ids: &mut WidgetIds) -> (r: Self)
        ensures
            r@.base.id == old(ids)@,
            final(ids)@ == succ_id(old(ids)@),
            r@.base.classes == seq!["address-bar"@],
            r@.base.element_id is None,
            r@.url.len() == 0,
            r@.display_text.len() == 0,
            !r@.is_focused,
            r@.cursor == 0,
            r@.security_state == SecurityState::Unknown,
            r@.placeholder == "Search or enter address"@,
            bar_wf(r@),
    {
        AddressBar {
            base: WidgetBase::new(ids).with_class("address-bar"),
            url: String::new(),
            display_text: String::new(),
            is_focused: false,
            cursor_position: 0,
            security_state: SecurityState::Unknown,
            placeholder: owned("Search or enter address"),
        }
    }

    /// Set the page URL; the shown text becomes its display form.
    pub fn url(self, url: &str) -> (r: Self)
        requires
            bar_wf(self@),
        ensures
            r@ == (AddressBarView { url: url@, display_text: display_url_of(url@), ..self@ }),
            bar_wf(r@) || self@.cursor > display_url_of(url@).len(),
    {
        let d = display_url(url);
        AddressBar { display_text: d, url: owned(url), ..self }
    }

    /// Set the security state.
    pub fn security_state(self, state: SecurityState) -> (r: Self)
        ensures
            r@ == (AddressBarView { security_state: state, ..self@ }),
    {
        AddressBar { security_state: state, ..self }
    }

    /// The display form of a URL.
    pub fn format_display_url(&self, url: &str) -> (r: String)
        ensures
            r@ == display_url_of(url@),
    {
        display_url(url)
    }

    /// Whether an input reads as an address rather than a search.
    pub fn looks_like_url(&self, input: &str) -> (r: bool)
        ensures
            r == url_like(input@),
    {
        looks_like_url_str(input)
    }

    /// The text shown in the bar.
    pub fn display_text(&self) -> (r: &str)
        ensures
            r@ == self@.display_text,
    {
        self.display_text.as_str()
    }

    /// Whether the bar has the keyboard focus.
    pub fn is_focused(&self) -> (r: bool)
        ensures
            r == self@.is_focused,
    {
        self.is_focused
    }

    /// The cursor position, in characters.
    pub fn cursor_position(&self) -> (r: usize)
        ensures
            r == self@.cursor,
    {
        self.cursor_position
    }

    /// Handles a pointer event: a left press inside focuses the bar and puts
    /// the cursor at the end; a left press outside drops the focus.
    pub fn handle_pointer(&mut self, ev: PointerEvent, ctx: &mut EventContext) -> (r: EventResult)
        requires
            bar_wf(old(self)@),
        ensures
            bar_wf(final(self)@),
            if ev.kind == MouseEventKind::Down && is_left(ev.button) && ev.in_bounds {
                &&& final(self)@ == (AddressBarView {
                    is_focused: true,
                    cursor: old(self)@.display_text.len(),
                    ..old(self)@
                })
                &&& final(ctx).focus == Some(old(self)@.base.id)
                &&& final(ctx).should_redraw
                &&& r == EventResult::Handled
            } else if ev.kind == MouseEventKind::Down && is_left(ev.button) && old(self)@.is_focused {
                &&& final(self)@ == (AddressBarView { is_focused: false, ..old(self)@ })
                &&& final(ctx).focus is None
                &&& final(ctx).should_redraw
                &&& r == EventResult::Ignored
            } else {
                &&& final(self)@ == old(self)@
                &&& final(ctx).focus == old(ctx).focus
                &&& final(ctx).should_redraw == old(ctx).should_redraw
                &&& r == EventResult::Ignored
            },
    {
        if ev.kind == MouseEventKind::Down && left_button(ev.button) {
            if ev.in_bounds {
                self.is_focused = true;
                self.cursor_position = char_count(self.display_text.as_str());
                ctx.request_focus(self.base.id);
                ctx.request_redraw();
                return EventResult::Handled;
            } else if self.is_focused {
                self.is_focused = false;
                ctx.release_focus();
                ctx.request_redraw();
            }
        }
        EventResult::Ignored
    }

    /// Handles a key event while the bar has the focus: Enter asks to
    /// navigate to the trimmed input (if any), Escape restores the URL's
    /// display form and drops the focus, Backspace deletes before the
    /// cursor, arrows, Home and End move the cursor, and typed text is
    /// inserted at the cursor.
    pub fn handle_key(&mut self, ev: &KeyEvent, ctx: &mut EventContext) -> (r: (EventResult, AddressBarAction))
        requires
            bar_wf(old(self)@),
        ensures
            bar_wf(final(self)@),
            !(old(self)@.is_focused && ev.kind == KeyEventKind::Down) ==> {
                &&& final(self)@ == old(self)@
                &&& r.0 == EventResult::Ignored
                &&& r.1 is Nothing
                &&& final(ctx).focus == old(ctx).focus
                &&& final(ctx).should_redraw == old(ctx).should_redraw
            },
            old(self)@.is_focused && ev.kind == KeyEventKind::Down ==> {
                let v = old(self)@;
                let t = v.display_text;
                let c = v.cursor;
                match ev.key {
                    Key::Enter => {
                        &&& final(self)@ == v
                        &&& r.0 == EventResult::Handled
                        &&& (if trimmed(t).len() > 0 {
                            r.1 matches AddressBarAction::Navigate(u) && u@ == navigation_target(trimmed(t))
                        } else {
                            r.1 is Nothing
                        })
                        &&& final(ctx).focus == old(ctx).focus
                        &&& final(ctx).should_redraw == old(ctx).should_redraw
                    },
                    Key::Escape => {
                        &&& final(self)@ == (AddressBarView {
                            display_text: display_url_of(v.url),
                            is_focused: false,
                            ..v
                        })
                        &&& r.0 == EventResult::Handled
                        &&& r.1 is Nothing
                        &&& final(ctx).focus is None
                        &&& final(ctx).should_redraw
                    },
                    Key::Backspace => {
                        &&& final(self)@ == (if c > 0 {
                            AddressBarView { display_text: removed(t, c - 1), cursor: (c - 1) as nat, ..v }
                        } else {
                            v
                        })
                        &&& r.0 == EventResult::Handled
                        &&& (if c > 0 { r.1 is Input } else { r.1 is Nothing })
                        &&& final(ctx).focus == old(ctx).focus
                        &&& final(ctx).should_redraw == (old(ctx).should_redraw || c > 0)
                    },
                    Key::Left | Key::Right | Key::Home | Key::End => {
                        &&& final(self)@ == (AddressBarView {
                            cursor: match ev.key {
                                Key::Left => if c > 0 { (c - 1) as nat } else { c },
                                Key::Right => if c < t.len() { c + 1 } else { c },
                                Key::Home => 0,
                                _ => t.len(),
                            },
                            ..v
                        })
                        &&& r.0 == EventResult::Handled
                        &&& r.1 is Nothing
                        &&& final(ctx).focus == old(ctx).focus
                        &&& final(ctx).should_redraw
                    },
                    _ => match ev.text {
                        Some(s) => {
                            &&& final(self)@ == (AddressBarView {
                                display_text: inserted(t, c as int, s@),
                                cursor: c + s@.len(),
                                ..v
                            })
                            &&& r.0 == EventResult::Handled
                            &&& r.1 is Input
                            &&& final(ctx).focus == old(ctx).focus
                            &&& final(ctx).should_redraw
                        },
                        None => {
                            &&& final(self)@ == v
                            &&& r.0 == EventResult::Ignored
                            &&& r.1 is Nothing
                            &&& final(ctx).focus == old(ctx).focus
                            &&& final(ctx).should_redraw == old(ctx).should_redraw
                        },
                    },
                }
            },
    {
        if !(self.is_focused && ev.kind == KeyEventKind::Down) {
            return (EventResult::Ignored, AddressBarAction::Nothing);
        }
        match ev.key {
            Key::Enter => {
                let input = trim(self.display_text.as_str());
                if char_count(input.as_str()) > 0 {
                    let url = navigation_target_for(input.as_str());
                    (EventResult::Handled, AddressBarAction::Navigate(url))
                } else {
                    (EventResult::Handled, AddressBarAction::Nothing)
                }
            },
            Key::Escape => {
                self.display_text = display_url(self.url.as_str());
                self.is_focused = false;
                ctx.release_focus();
                ctx.request_redraw();
                (EventResult::Handled, AddressBarAction::Nothing)
            },
            Key::Backspace => {
                if self.cursor_position > 0 {
                    self.display_text = remove_at(self.display_text.as_str(), self.cursor_position - 1);
                    self.cursor_position = self.cursor_position - 1;
                    ctx.request_redraw();
                    (EventResult::Handled, AddressBarAction::Input)
                } else {
                    (EventResult::Handled, AddressBarAction::Nothing)
                }
            },
            Key::Left => {
                if self.cursor_position > 0 {
                    self.cursor_position = self.cursor_position - 1;
                }
                ctx.request_redraw();
                (EventResult::Handled, AddressBarAction::Nothing)
            },
            Key::Right => {
                if self.cursor_position < char_count(self.display_text.as_str()) {
                    self.cursor_position = self.cursor_position + 1;
                }
                ctx.request_redraw();
                (EventResult::Handled, AddressBarAction::Nothing)
            },
            Key::Home => {
                self.cursor_position = 0;
                ctx.request_redraw();
                (EventResult::Handled, AddressBarAction::Nothing)
            },
            Key::End => {
                self.cursor_position = char_count(self.display_text.as_str());
                ctx.request_redraw();
                (EventResult::Handled, AddressBarAction::Nothing)
            },
            _ => {
                match &ev.text {
                    Some(s) => {
                        let k = char_count(s.as_str());
                        let t = insert_at(self.display_text.as_str(), self.cursor_position, s.as_str());
                        let total = char_count(t.as_str());
                        assert(total == self.cursor_position + k + (old(self)@.display_text.len() - self.cursor_position));
                        self.display_text = t;
                        self.cursor_position = self.cursor_position + k;
                        ctx.request_redraw();
                        (EventResult::Handled, AddressBarAction::Input)
                    },
                    None => (EventResult::Ignored, AddressBarAction::Nothing),
                }
            },
        }
    }

    /// Add a CSS class.
    pub fn class(self, class: &str) -> (r: Self)
        ensures
            r@ == (AddressBarView { base: BaseView { classes: added(self@.base.classes, class@), ..self@.base }, ..self@ }),
    {
        let mut c = self;
        c.base.classes.add(class);
        c
    }
}

/// An address typed without a scheme is opened over `https://`, and the
/// bar then shows it just as it was typed, when it has no leading `www.`
/// and no trailing `/`; anything that does not read as an address becomes
/// a search.
pub proof fn lemma_typed_address_shown_back(input: Seq<char>)
    ensures
        url_like(input) && !is_prefix("http"@, input) && !is_prefix("about:"@, input) ==> ({
            let target = navigation_target(input);
            &&& target == "https://"@ + input
            &&& (!is_prefix("www."@, input) && !(input.len() > 0 && input.last() == '/')
                ==> display_url_of(target) == input)
        }),
        !url_like(input) ==> is_prefix("https://duckduckgo.com/?q="@, navigation_target(input)),
{
    reveal_strlit("https://");
    reveal_strlit("https://duckduckgo.com/?q=");
    let t = "https://"@ + input;
    assert(t.subrange(0, 8) =~= "https://"@);
    assert(t.skip(8) =~= input);
    if !url_like(input) {
        let q = "https://duckduckgo.com/?q="@;
        let r = q + spaces_replaced(input, '+');
        assert(r.subrange(0, q.len() as int) =~= q);
    }
}

impl Widget for AddressBar {
    fn id(&self) -> (r: WidgetId)
        ensures
            r == self@.base.id,
    {
        self.base.id
    }

    fn widget_type_name(&self) -> (r: &'static str)
        ensures
            r@ == "address-bar"@,
    {
        "address-bar"
    }

    fn element_id(&self) -> (r: Option<&str>)
        ensures
            match r {
                Some(s) => self@.base.element_id == Some(s@),
                None => self@.base.element_id is None,
            },
    {
        self.base.element_id_str()
    }

    fn classes(&self) -> (r: &ClassList)
        ensures
            r@ == self@.base.classes,
    {
        &self.base.classes
    }

    /// The base state with `focused` reflecting the bar's focus.
    fn state(&self) -> (r: WidgetState)
        ensures
            r == (WidgetState { focused: self@.is_focused, ..self@.base.state }),
    {
        let mut s = self.base.state;
        s.focused = self.is_focused;
        s
    }
}

} // verus!
