//! Card container styles: how each variant is drawn.
use vstd::prelude::*;

use crate::theme::{ColorAdjust, ColorChoice, ThemeColor};

verus! {

/// Card visual variant.
#[derive(Debug, Clone, Copy, PartialEq, Eq, Structural)]
pub enum CardVariant {
    /// Border and shadow.
    Default,
    /// More shadow.
    Elevated,
    /// Border only, no shadow.
    Outlined,
    /// Minimal styling.
    GhostStyle,
    /// Semi-transparent glass effect.
    Glass,
}

impl Default for CardVariant {
    fn default() -> (r: Self)
        ensures
            r == CardVariant::Default,
    {
        CardVariant::Default
    }
}

/// Whether a variant draws a border.
pub open spec fn card_border(v: CardVariant) -> bool {
    v == CardVariant::Default || v == CardVariant::Outlined || v == CardVariant::Glass
}

/// Whether a variant draws a shadow.
pub open spec fn card_shadow(v: CardVariant) -> bool {
    v == CardVariant::Default || v == CardVariant::Elevated
}

/// The background of a variant: the card color, transparent for the
/// minimal style, or the card color at 80% opacity for glass.
pub open spec fn card_background(v: CardVariant) -> ColorChoice {
    match v {
        CardVariant::GhostStyle => ColorChoice { color: ThemeColor::Transparent, adjust: ColorAdjust::Plain },
        CardVariant::Glass => ColorChoice { color: ThemeColor::Card, adjust: ColorAdjust::AlphaPercent(80) },
        _ => ColorChoice { color: ThemeColor::Card, adjust: ColorAdjust::Plain },
    }
}

impl CardVariant {
    /// Whether this variant draws a border.
    pub fn should_draw_border(&self) -> (r: bool)
        ensures
            r == card_border(*self),
    {
        match self {
            CardVariant::Default | CardVariant::Outlined | CardVariant::Glass => true,
            _ => false,
        }
    }

    /// Whether this variant draws a shadow.
    pub fn should_draw_shadow(&self) -> (r: bool)
        ensures
            r == card_shadow(*self),
    {
        match self {
            CardVariant::Default | CardVariant::Elevated => true,
            _ => false,
        }
    }

    /// The background color of this variant.
    pub fn background_color(&self) -> (r: ColorChoice)
        ensures
            r == card_background(*self),
    {
        match self {
            CardVariant::GhostStyle => ColorChoice { color: ThemeColor::Transparent, adjust: ColorAdjust::Plain },
            CardVariant::Glass => ColorChoice { color: ThemeColor::Card, adjust: ColorAdjust::AlphaPercent(80) },
            _ => ColorChoice { color: ThemeColor::Card, adjust: ColorAdjust::Plain },
        }
    }

    /// How far the shadow is offset: further for an elevated card.
    pub fn shadow_offset(&self) -> (r: u8)
        ensures
            r == (if *self == CardVariant::Elevated { 8u8 } else { 2u8 }),
    {
        match self {
            CardVariant::Elevated => 8,
            _ => 2,
        }
    }
}

} // verus!
