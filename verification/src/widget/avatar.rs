//! Avatar widget: a user picture, initials, or a fallback.
use vstd::prelude::*;

use super::pointer::{hover_step, idle_step, leave_step, PointerStep};
use super::{BaseView, EventContext, Widget, WidgetBase, WidgetId, WidgetIds, succ_id};
use super::pointer::{track_hover, track_leave};
use crate::css::{added, cleared_state, ClassList, WidgetState};
use crate::event::{EventResult, MouseEventKind, PointerEvent};
use crate::text::{owned, take_chars, to_uppercase, uppercase, char_count};
use vstd::string::StringSliceAdditionalSpecFns;

verus! {

/// Avatar size presets.
#[derive(Debug, Clone, Copy, PartialEq, Eq, Structural)]
pub enum AvatarSize {
    XSmall,
    Small,
    Medium,
    Large,
    XLarge,
    Custom(u32),
}

impl Default for AvatarSize {
    fn default() -> (r: Self)
        ensures
            r == AvatarSize::Medium,
    {
        AvatarSize::Medium
    }
}

/// Avatar shape.
#[derive(Debug, Clone, Copy, PartialEq, Eq, Structural)]
pub enum AvatarShape {
    Circle,
    Rounded,
    Square,
}

impl Default for AvatarShape {
    fn default() -> (r: Self)
        ensures
            r == AvatarShape::Circle,
    {
        AvatarShape::Circle
    }
}

/// The initials shown for a text: its first two characters, uppercased.
pub open spec fn initials_of(text: Seq<char>) -> Seq<char> {
    uppercase(if text.len() <= 2 { text } else { text.take(2) })
}

/// The 31-multiplier rolling hash of a byte string, in 32-bit wrapping arithmetic.
pub open spec fn name_hash(b: Seq<u8>) -> u32
    decreases b.len(),
{
    if b.len() == 0 {
        0
    } else {
        vstd::wrapping::u32_specs::wrapping_add(
            vstd::wrapping::u32_specs::wrapping_mul(name_hash(b.drop_last()), 31),
            b.last() as u32,
        )
    }
}

/// Abstract contents of an `Avatar`.
pub struct AvatarView {
    pub base: BaseView,
    pub initials: Option<Seq<char>>,
    pub image_path: Option<Seq<char>>,
    pub fallback_initials: Option<Seq<char>>,
    pub size: AvatarSize,
    pub shape: AvatarShape,
}

/// Avatar widget for displaying user profile pictures or initials.
pub struct Avatar {
    base: WidgetBase,
    initials: Option<String>,
    image_path: Option<String>,
    fallback_initials: Option<String>,
    size: AvatarSize,
    shape: AvatarShape,
}

impl View for Avatar {
    type V = AvatarView;

    closed spec fn view(&self) -> AvatarView {
        AvatarView {
            base: self.base@,
            initials: crate::text::opt_view(&self.initials),
            image_path: crate::text::opt_view(&self.image_path),
            fallback_initials: crate::text::opt_view(&self.fallback_initials),
            size: self.size,
            shape: self.shape,
        }
    }
}

/// The pointer machine of an avatar: with a click handler it tracks hover,
/// a press inside presses it, a release inside while pressed clicks it;
/// without a handler it ignores the pointer.
pub open spec fn avatar_step(s: WidgetState, ev: PointerEvent, clickable: bool) -> PointerStep {
    if !clickable {
        idle_step(s)
    } else {
        match ev.kind {
            MouseEventKind::Enter | MouseEventKind::Move => hover_step(s, ev.in_bounds),
            MouseEventKind::Leave => leave_step(s),
            MouseEventKind::Up => if ev.in_bounds && s.pressed {
                PointerStep {
                    state: WidgetState { pressed: false, ..s },
                    result: EventResult::Handled,
                    activated: true,
                    focus: false,
                    redraw: true,
                }
            } else {
                idle_step(s)
            },
            MouseEventKind::Down => if ev.in_bounds {
                PointerStep {
                    state: WidgetState { pressed: true, ..s },
                    result: EventResult::Handled,
                    activated: false,
                    focus: false,
                    redraw: true,
                }
            } else {
                idle_step(s)
            },
            MouseEventKind::Scroll => idle_step(s),
        }
    }
}

/// Computes the initials for a text.
fn make_initials(text: &str) -> (r: String)
    ensures
        r@ == initials_of(text@),
{
    let n = char_count(text);
    let first = if n <= 2 { owned(text) } else { take_chars(text, 2) };
    to_uppercase(first.as_str())
}

impl Avatar {
    /// An avatar with no picture or initials, of medium size and round.
    pub fn new(ids: &mut WidgetIds) -> (r: Self)
        ensures
            r@.base.id == old(ids)@,
            final(ids)@ == succ_id(old(ids)@),
            r@.base.classes == seq!["avatar"@],
            r@.base.element_id is None,
            r@.base.state == cleared_state(),
            r@.initials is None,
            r@.image_path is None,
            r@.fallback_initials is None,
            r@.size == AvatarSize::Medium,
            r@.shape == AvatarShape::Circle,
    {
        Avatar {
            base: WidgetBase::new(ids).with_class("avatar"),
            initials: None,
            image_path: None,
            fallback_initials: None,
            size: AvatarSize::Medium,
            shape: AvatarShape::Circle,
        }
    }

    /// Set the initials: the first two characters of `initials`, uppercased.
    pub fn initials(self, initials: &str) -> (r: Self)
        ensures
            r@ == (AvatarView { initials: Some(initials_of(initials@)), ..self@ }),
    {
        Avatar { initials: Some(make_initials(initials)), ..self }
    }

    /// Set the image path.
    pub fn image(self, path: &str) -> (r: Self)
        ensures
            r@ == (AvatarView { image_path: Some(path@), ..self@ }),
    {
        Avatar { image_path: Some(owned(path)), ..self }
    }

    /// Set the initials shown when the image fails to load: the first two
    /// characters of `initials`, uppercased.
    pub fn fallback_initials(self, initials: &str) -> (r: Self)
        ensures
            r@ == (AvatarView { fallback_initials: Some(initials_of(initials@)), ..self@ }),
    {
        Avatar { fallback_initials: Some(make_initials(initials)), ..self }
    }

    /// Set the size.
    pub fn size(self, size: AvatarSize) -> (r: Self)
        ensures
            r@ == (AvatarView { size, ..self@ }),
    {
        Avatar { size, ..self }
    }

    /// Set the shape.
    pub fn shape(self, shape: AvatarShape) -> (r: Self)
        ensures
            r@ == (AvatarView { shape, ..self@ }),
    {
        Avatar { shape, ..self }
    }

    /// Add a CSS class.
    pub fn class(self, class: &str) -> (r: Self)
        ensures
            r@ == (AvatarView { base: BaseView { classes: added(self@.base.classes, class@), ..self@.base }, ..self@ }),
    {
        let mut a = self;
        a.base.classes.add(class);
        a
    }

    /// The initials, if set.
    pub fn get_initials(&self) -> (r: Option<&str>)
        ensures
            match r {
                Some(s) => self@.initials == Some(s@),
                None => self@.initials is None,
            },
    {
        match &self.initials {
            Some(s) => Some(s.as_str()),
            None => None,
        }
    }

    /// The 31-multiplier rolling hash of the UTF-8 bytes of `s`.
    pub fn string_hash(s: &str) -> (r: u32)
        ensures
            r == name_hash(s.spec_bytes()),
    {
        let b = s.as_bytes();
        let mut h: u32 = 0;
        let mut i: usize = 0;
        while i < b.len()
            invariant
                i <= b@.len(),
                b@ == s.spec_bytes(),
                h == name_hash(b@.take(i as int)),
            decreases b.len() - i,
        {
            assert(b@.take(i + 1).drop_last() =~= b@.take(i as int));
            h = h.wrapping_mul(31).wrapping_add(b[i] as u32);
            i = i + 1;
        }
        assert(b@.take(b@.len() as int) =~= b@);
        h
    }

    /// The hue, in degrees, of the background color derived from `s`: its
    /// hash modulo 360.
    pub fn hue_from_string(s: &str) -> (r: u32)
        ensures
            r == name_hash(s.spec_bytes()) % 360,
            r < 360,
    {
        Avatar::string_hash(s) % 360
    }

    /// Handles a pointer event; `clickable` tells whether a click handler is
    /// set. Returns the event result and whether the avatar was clicked.
    pub fn handle_pointer(&mut self, ev: PointerEvent, clickable: bool, ctx: &mut EventContext) -> (r: (EventResult, bool))
        ensures
            ({
                let step = avatar_step(old(self)@.base.state, ev, clickable);
                &&& final(self)@ == (AvatarView { base: BaseView { state: step.state, ..old(self)@.base }, ..old(self)@ })
                &&& r == (step.result, step.activated)
                &&& final(ctx).focus == old(ctx).focus
                &&& final(ctx).should_redraw == (old(ctx).should_redraw || step.redraw)
            }),
    {
        if !clickable {
            return (EventResult::Ignored, false);
        }
        match ev.kind {
            MouseEventKind::Move | MouseEventKind::Enter => {
                track_hover(&mut self.base, ev.in_bounds, ctx);
                (EventResult::Ignored, false)
            },
            MouseEventKind::Leave => {
                track_leave(&mut self.base, ctx);
                (EventResult::Ignored, false)
            },
            MouseEventKind::Up => {
                if ev.in_bounds && self.base.state.pressed {
                    self.base.state.pressed = false;
                    ctx.request_redraw();
                    (EventResult::Handled, true)
                } else {
                    (EventResult::Ignored, false)
                }
            },
            MouseEventKind::Down => {
                if ev.in_bounds {
                    self.base.state.pressed = true;
                    ctx.request_redraw();
                    (EventResult::Handled, false)
                } else {
                    (EventResult::Ignored, false)
                }
            },
            MouseEventKind::Scroll => (EventResult::Ignored, false),
        }
    }
}

impl Widget for Avatar {
    fn id(&self) -> (r: WidgetId)
        ensures
            r == self@.base.id,
    {
        self.base.id
    }

    fn widget_type_name(&self) -> (r: &'static str)
        ensures
            r@ == "avatar"@,
    {
        "avatar"
    }

    fn element_id(&self) -> (r: Option<&str>)
        ensures
            match r {
                Some(s) => self@.base.element_id == Some(s@),
                None => self@.base.element_id is None,
            },
    {
        self.base.element_id_str()
    }

    fn classes(&self) -> (r: &ClassList)
        ensures
            r@ == self@.base.classes,
    {
        &self.base.classes
    }

    fn state(&self) -> (r: WidgetState)
        ensures
            r == self@.base.state,
    {
        self.base.state
    }
}

} // verus!
