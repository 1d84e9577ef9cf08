//! Icon button widget.
use vstd::prelude::*;

use super::pointer::{context_after, idle_step, press_click, press_click_step};
use super::{BaseView, EventContext, Widget, WidgetBase, WidgetId, WidgetIds, succ_id};
use crate::css::{added, cleared_state, ClassList, WidgetState};
use crate::event::{EventResult, PointerEvent};
use crate::text::owned;
use crate::theme::{plain, ColorAdjust, ColorChoice, ThemeColor};

verus! {

/// Icon button size.
#[derive(Debug, Clone, Copy, PartialEq, Eq, Structural)]
pub enum IconButtonSize {
    Small,
    Medium,
    Large,
}

impl Default for IconButtonSize {
    fn default() -> (r: Self)
        ensures
            r == IconButtonSize::Medium,
    {
        IconButtonSize::Medium
    }
}

/// Icon button visual variant.
#[derive(Debug, Clone, Copy, PartialEq, Eq, Structural)]
pub enum IconButtonVariant {
    GhostStyle,
    Filled,
    Outline,
    Destructive,
}

impl Default for IconButtonVariant {
    fn default() -> (r: Self)
        ensures
            r == IconButtonVariant::GhostStyle,
    {
        IconButtonVariant::GhostStyle
    }
}

/// Abstract contents of an `IconButton`.
pub struct IconButtonView {
    pub base: BaseView,
    pub icon: Seq<char>,
    pub tooltip: Option<Seq<char>>,
    pub size: IconButtonSize,
    pub variant: IconButtonVariant,
    pub disabled: bool,
}

/// A button showing only an icon.
pub struct IconButton {
    base: WidgetBase,
    icon: String,
    tooltip: Option<String>,
    size: IconButtonSize,
    variant: IconButtonVariant,
    disabled: bool,
}

impl View for IconButton {
    type V = IconButtonView;

    closed spec fn view(&self) -> IconButtonView {
        IconButtonView {
            base: self.base@,
            icon: self.icon@,
            tooltip: crate::text::opt_view(&self.tooltip),
            size: self.size,
            variant: self.variant,
            disabled: self.disabled,
        }
    }
}

/// The background of an icon button, by variant and state.
pub open spec fn icon_button_background(v: IconButtonVariant, disabled: bool, s: WidgetState) -> ColorChoice {
    let base = match v {
        IconButtonVariant::GhostStyle => ThemeColor::Transparent,
        IconButtonVariant::Filled => ThemeColor::Secondary,
        IconButtonVariant::Outline => ThemeColor::Transparent,
        IconButtonVariant::Destructive => if s.hovered || s.pressed { ThemeColor::Destructive } else { ThemeColor::Transparent },
    };
    if disabled {
        plain(ThemeColor::Transparent)
    } else if s.pressed {
        match v {
            IconButtonVariant::GhostStyle => ColorChoice { color: ThemeColor::Accent, adjust: ColorAdjust::AlphaPercent(30) },
            IconButtonVariant::Filled => ColorChoice { color: base, adjust: ColorAdjust::Darken(15) },
            IconButtonVariant::Outline => ColorChoice { color: ThemeColor::Accent, adjust: ColorAdjust::AlphaPercent(20) },
            IconButtonVariant::Destructive => ColorChoice { color: base, adjust: ColorAdjust::Darken(15) },
        }
    } else if s.hovered {
        match v {
            IconButtonVariant::GhostStyle => ColorChoice { color: ThemeColor::Accent, adjust: ColorAdjust::AlphaPercent(10) },
            IconButtonVariant::Filled => ColorChoice { color: base, adjust: ColorAdjust::Darken(10) },
            IconButtonVariant::Outline => ColorChoice { color: ThemeColor::Accent, adjust: ColorAdjust::AlphaPercent(10) },
            IconButtonVariant::Destructive => plain(base),
        }
    } else {
        plain(base)
    }
}

/// The icon color of an icon button, by variant and state.
pub open spec fn icon_button_foreground(v: IconButtonVariant, disabled: bool, s: WidgetState) -> ThemeColor {
    if disabled {
        ThemeColor::MutedForeground
    } else {
        match v {
            IconButtonVariant::GhostStyle => ThemeColor::Foreground,
            IconButtonVariant::Filled => ThemeColor::SecondaryForeground,
            IconButtonVariant::Outline => ThemeColor::Foreground,
            IconButtonVariant::Destructive => if s.hovered || s.pressed {
                ThemeColor::DestructiveForeground
            } else {
                ThemeColor::Destructive
            },
        }
    }
}

impl IconButton {
    /// An enabled, medium, ghost-style icon button.
    pub fn new(ids: &mut WidgetIds, icon: &str) -> (r: Self)
        ensures
            r@.base.id == old(ids)@,
            final(ids)@ == succ_id(old(ids)@),
            r@.base.classes == seq!["icon-button"@],
            r@.base.element_id is None,
            r@.base.state == cleared_state(),
            r@.icon == icon@,
            r@.tooltip is None,
            r@.size == IconButtonSize::Medium,
            r@.variant == IconButtonVariant::GhostStyle,
            !r@.disabled,
    {
        IconButton {
            base: WidgetBase::new(ids).with_class("icon-button"),
            icon: owned(icon),
            tooltip: None,
            size: IconButtonSize::Medium,
            variant: IconButtonVariant::GhostStyle,
            disabled: false,
        }
    }

    /// Set the tooltip.
    pub fn tooltip(self, text: &str) -> (r: Self)
        ensures
            r@ == (IconButtonView { tooltip: Some(text@), ..self@ }),
    {
        IconButton { tooltip: Some(owned(text)), ..self }
    }

    /// Set the size.
    pub fn size(self, size: IconButtonSize) -> (r: Self)
        ensures
            r@ == (IconButtonView { size, ..self@ }),
    {
        IconButton { size, ..self }
    }

    /// Set the variant.
    pub fn variant(self, variant: IconButtonVariant) -> (r: Self)
        ensures
            r@ == (IconButtonView { variant, ..self@ }),
    {
        IconButton { variant, ..self }
    }

    /// Enable or disable the button (the state's `disabled` flag follows).
    pub fn disabled(self, disabled: bool) -> (r: Self)
        ensures
            r@ == (IconButtonView {
                disabled,
                base: BaseView { state: WidgetState { disabled, ..self@.base.state }, ..self@.base },
                ..self@
            }),
    {
        let mut b = self;
        b.disabled = disabled;
        b.base.state.disabled = disabled;
        b
    }

    /// Add a CSS class.
    pub fn class(self, class: &str) -> (r: Self)
        ensures
            r@ == (IconButtonView { base: BaseView { classes: added(self@.base.classes, class@), ..self@.base }, ..self@ }),
    {
        let mut b = self;
        b.base.classes.add(class);
        b
    }

    /// The background color (see `icon_button_background`).
    pub fn background_color(&self) -> (r: ColorChoice)
        ensures
            r == icon_button_background(self@.variant, self@.disabled, self@.base.state),
    {
        if self.disabled {
            return ColorChoice { color: ThemeColor::Transparent, adjust: ColorAdjust::Plain };
        }
        let s = self.base.state;
        let base = match self.variant {
            IconButtonVariant::GhostStyle => ThemeColor::Transparent,
            IconButtonVariant::Filled => ThemeColor::Secondary,
            IconButtonVariant::Outline => ThemeColor::Transparent,
            IconButtonVariant::Destructive => if s.hovered || s.pressed { ThemeColor::Destructive } else { ThemeColor::Transparent },
        };
        if s.pressed {
            match self.variant {
                IconButtonVariant::GhostStyle => ColorChoice { color: ThemeColor::Accent, adjust: ColorAdjust::AlphaPercent(30) },
                IconButtonVariant::Filled => ColorChoice { color: base, adjust: ColorAdjust::Darken(15) },
                IconButtonVariant::Outline => ColorChoice { color: ThemeColor::Accent, adjust: ColorAdjust::AlphaPercent(20) },
                IconButtonVariant::Destructive => ColorChoice { color: base, adjust: ColorAdjust::Darken(15) },
            }
        } else if s.hovered {
            match self.variant {
                IconButtonVariant::GhostStyle => ColorChoice { color: ThemeColor::Accent, adjust: ColorAdjust::AlphaPercent(10) },
                IconButtonVariant::Filled => ColorChoice { color: base, adjust: ColorAdjust::Darken(10) },
                IconButtonVariant::Outline => ColorChoice { color: ThemeColor::Accent, adjust: ColorAdjust::AlphaPercent(10) },
                IconButtonVariant::Destructive => ColorChoice { color: base, adjust: ColorAdjust::Plain },
            }
        } else {
            ColorChoice { color: base, adjust: ColorAdjust::Plain }
        }
    }

    /// The icon color (see `icon_button_foreground`).
    pub fn foreground_color(&self) -> (r: ThemeColor)
        ensures
            r == icon_button_foreground(self@.variant, self@.disabled, self@.base.state),
    {
        if self.disabled {
            return ThemeColor::MutedForeground;
        }
        match self.variant {
            IconButtonVariant::GhostStyle => ThemeColor::Foreground,
            IconButtonVariant::Filled => ThemeColor::SecondaryForeground,
            IconButtonVariant::Outline => ThemeColor::Foreground,
            IconButtonVariant::Destructive => if self.base.state.hovered || self.base.state.pressed {
                ThemeColor::DestructiveForeground
            } else {
                ThemeColor::Destructive
            },
        }
    }

    /// Handles a pointer event with the press-and-release machine; a
    /// disabled button ignores the pointer. Returns the event result and
    /// whether the button was clicked.
    pub fn handle_pointer(&mut self, ev: PointerEvent, ctx: &mut EventContext) -> (r: (EventResult, bool))
        ensures
            ({
                let step = if old(self)@.disabled { idle_step(old(self)@.base.state) } else { press_click_step(old(self)@.base.state, ev) };
                &&& final(self)@ == (IconButtonView { base: BaseView { state: step.state, ..old(self)@.base }, ..old(self)@ })
                &&& r == (step.result, step.activated)
                &&& (final(ctx).focus, final(ctx).should_redraw)
                    == context_after(old(ctx).focus, old(ctx).should_redraw, old(self)@.base.id, step)
            }),
    {
        if self.disabled {
            return (EventResult::Ignored, false);
        }
        press_click(&mut self.base, ev, ctx)
    }
}

impl Widget for IconButton {
    fn id(&self) -> (r: WidgetId)
        ensures
            r == self@.base.id,
    {
        self.base.id
    }

    fn widget_type_name(&self) -> (r: &'static str)
        ensures
            r@ == "icon-button"@,
    {
        "icon-button"
    }

    fn element_id(&self) -> (r: Option<&str>)
        ensures
            match r {
                Some(s) => self@.base.element_id == Some(s@),
                None => self@.base.element_id is None,
            },
    {
        self.base.element_id_str()
    }

    fn classes(&self) -> (r: &ClassList)
        ensures
            r@ == self@.base.classes,
    {
        &self.base.classes
    }

    fn state(&self) -> (r: WidgetState)
        ensures
            r == self@.base.state,
    {
        self.base.state
    }
}

} // verus!
