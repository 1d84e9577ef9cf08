//! Button widget.
use vstd::prelude::*;

use super::pointer::{context_after, press_click, press_click_step};
use super::{BaseView, EventContext, Widget, WidgetBase, WidgetId, WidgetIds, succ_id};
use crate::css::{added, ClassList, WidgetState};
use crate::event::{EventResult, PointerEvent};
use crate::text::owned;
use crate::theme::{plain, ColorAdjust, ColorChoice, ThemeColor};

verus! {

/// Button visual variant.
#[derive(Debug, Clone, Copy, PartialEq, Eq, Structural)]
pub enum ButtonVariant {
    Primary,
    Secondary,
    Outline,
    GhostStyle,
    Destructive,
}

impl Default for ButtonVariant {
    fn default() -> (r: Self)
        ensures
            r == ButtonVariant::Primary,
    {
        ButtonVariant::Primary
    }
}

/// The CSS class that marks a button variant.
pub open spec fn variant_class(v: ButtonVariant) -> Seq<char> {
    match v {
        ButtonVariant::Primary => "btn-primary"@,
        ButtonVariant::Secondary => "btn-secondary"@,
        ButtonVariant::Outline => "btn-outline"@,
        ButtonVariant::GhostStyle => "btn-ghost"@,
        ButtonVariant::Destructive => "btn-destructive"@,
    }
}

/// Abstract contents of a `Button`.
pub struct ButtonView {
    pub base: BaseView,
    pub label: Seq<char>,
    pub variant: ButtonVariant,
}

/// A clickable button widget.
pub struct Button {
    base: WidgetBase,
    label: String,
    variant: ButtonVariant,
}

impl View for Button {
    type V = ButtonView;

    closed spec fn view(&self) -> ButtonView {
        ButtonView { base: self.base@, label: self.label@, variant: self.variant }
    }
}

/// The background a button paints with, by variant and state.
pub open spec fn button_background(v: ButtonVariant, s: WidgetState) -> ColorChoice {
    let base = match v {
        ButtonVariant::Primary => ThemeColor::Primary,
        ButtonVariant::Secondary => ThemeColor::Secondary,
        ButtonVariant::Outline => ThemeColor::Transparent,
        ButtonVariant::GhostStyle => ThemeColor::Transparent,
        ButtonVariant::Destructive => ThemeColor::Destructive,
    };
    if s.disabled {
        ColorChoice { color: base, adjust: ColorAdjust::AlphaPercent(50) }
    } else if s.pressed {
        ColorChoice { color: base, adjust: ColorAdjust::Darken(15) }
    } else if s.hovered {
        ColorChoice { color: base, adjust: ColorAdjust::Darken(10) }
    } else {
        plain(base)
    }
}

/// The text color of a button, by variant.
pub open spec fn button_text_color(v: ButtonVariant) -> ThemeColor {
    match v {
        ButtonVariant::Primary => ThemeColor::PrimaryForeground,
        ButtonVariant::Secondary => ThemeColor::SecondaryForeground,
        ButtonVariant::Outline => ThemeColor::Foreground,
        ButtonVariant::GhostStyle => ThemeColor::Foreground,
        ButtonVariant::Destructive => ThemeColor::DestructiveForeground,
    }
}

impl Button {
    /// A primary button with the given label and the class `button`.
    pub fn new(ids: &mut WidgetIds, label: &str) -> (r: Self)
        ensures
            r@.base.id == old(ids)@,
            final(ids)@ == succ_id(old(ids)@),
            r@.base.element_id is None,
            r@.base.classes == seq!["button"@],
            r@.base.state == crate::css::cleared_state(),
            r@.label == label@,
            r@.variant == ButtonVariant::Primary,
    {
        let base = WidgetBase::new(ids).with_class("button");
        Button { base, label: owned(label), variant: ButtonVariant::Primary }
    }

    /// Set the button label.
    pub fn label(self, label: &str) -> (r: Self)
        ensures
            r@ == (ButtonView { label: label@, ..self@ }),
    {
        Button { label: owned(label), ..self }
    }

    /// Set the button variant; the variant's class is added to the classes.
    pub fn variant(self, variant: ButtonVariant) -> (r: Self)
        ensures
            r@.variant == variant,
            r@.base == (BaseView { classes: added(self@.base.classes, variant_class(variant)), ..self@.base }),
            r@.label == self@.label,
    {
        let mut b = self;
        b.variant = variant;
        let class = match variant {
            ButtonVariant::Primary => "btn-primary",
            ButtonVariant::Secondary => "btn-secondary",
            ButtonVariant::Outline => "btn-outline",
            ButtonVariant::GhostStyle => "btn-ghost",
            ButtonVariant::Destructive => "btn-destructive",
        };
        b.base.classes.add(class);
        b
    }

    /// Add a CSS class.
    pub fn class(self, class: &str) -> (r: Self)
        ensures
            r@ == (ButtonView { base: BaseView { classes: added(self@.base.classes, class@), ..self@.base }, ..self@ }),
    {
        let mut b = self;
        b.base.classes.add(class);
        b
    }

    /// Set the element ID.
    pub fn id(self, id: &str) -> (r: Self)
        ensures
            r@ == (ButtonView { base: BaseView { element_id: Some(id@), ..self@.base }, ..self@ }),
    {
        let mut b = self;
        b.base.element_id = Some(owned(id));
        b
    }

    /// The button's label.
    pub fn get_label(&self) -> (r: &str)
        ensures
            r@ == self@.label,
    {
        self.label.as_str()
    }

    /// The background color, by variant and state.
    pub fn background_color(&self) -> (r: ColorChoice)
        ensures
            r == button_background(self@.variant, self@.base.state),
    {
        let base = match self.variant {
            ButtonVariant::Primary => ThemeColor::Primary,
            ButtonVariant::Secondary => ThemeColor::Secondary,
            ButtonVariant::Outline => ThemeColor::Transparent,
            ButtonVariant::GhostStyle => ThemeColor::Transparent,
            ButtonVariant::Destructive => ThemeColor::Destructive,
        };
        if self.base.state.disabled {
            ColorChoice { color: base, adjust: ColorAdjust::AlphaPercent(50) }
        } else if self.base.state.pressed {
            ColorChoice { color: base, adjust: ColorAdjust::Darken(15) }
        } else if self.base.state.hovered {
            ColorChoice { color: base, adjust: ColorAdjust::Darken(10) }
        } else {
            ColorChoice { color: base, adjust: ColorAdjust::Plain }
        }
    }

    /// The text color, by variant.
    pub fn text_color(&self) -> (r: ThemeColor)
        ensures
            r == button_text_color(self@.variant),
    {
        match self.variant {
            ButtonVariant::Primary => ThemeColor::PrimaryForeground,
            ButtonVariant::Secondary => ThemeColor::SecondaryForeground,
            ButtonVariant::Outline => ThemeColor::Foreground,
            ButtonVariant::GhostStyle => ThemeColor::Foreground,
            ButtonVariant::Destructive => ThemeColor::DestructiveForeground,
        }
    }

    /// Handles a pointer event; returns the event result and whether the
    /// button was clicked (released inside its bounds after a press).
    pub fn handle_pointer(&mut self, ev: PointerEvent, ctx: &mut EventContext) -> (r: (EventResult, bool))
        ensures
            ({
                let step = press_click_step(old(self)@.base.state, ev);
                &&& final(self)@.base.state == step.state
                &&& r == (step.result, step.activated)
                &&& (final(ctx).focus, final(ctx).should_redraw)
                    == context_after(old(ctx).focus, old(ctx).should_redraw, old(self)@.base.id, step)
            }),
            final(self)@.base.id == old(self)@.base.id,
            final(self)@.base.classes == old(self)@.base.classes,
            final(self)@.base.element_id == old(self)@.base.element_id,
            final(self)@.label == old(self)@.label,
            final(self)@.variant == old(self)@.variant,
    {
        press_click(&mut self.base, ev, ctx)
    }
}

impl Widget for Button {
    fn id(&self) -> (r: WidgetId)
        ensures
            r == self@.base.id,
    {
        self.base.id
    }

    fn widget_type_name(&self) -> (r: &'static str)
        ensures
            r@ == "button"@,
    {
        "button"
    }

    fn element_id(&self) -> (r: Option<&str>)
        ensures
            match r {
                Some(s) => self@.base.element_id == Some(s@),
                None => self@.base.element_id is None,
            },
    {
        self.base.element_id_str()
    }

    fn classes(&self) -> (r: &ClassList)
        ensures
            r@ == self@.base.classes,
    {
        &self.base.classes
    }

    fn state(&self) -> (r: WidgetState)
        ensures
            r == self@.base.state,
    {
        self.base.state
    }
}

} // verus!
