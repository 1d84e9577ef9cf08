//! Symbolic colors: which theme color a widget paints with and how it is
//! adjusted. Turning a choice into channel values is the renderer's work.
use vstd::prelude::*;

verus! {

/// A named color of the active theme.
#[derive(Debug, Clone, Copy, PartialEq, Eq, Structural)]
pub enum ThemeColor {
    Transparent,
    Background,
    Foreground,
    Card,
    Primary,
    PrimaryForeground,
    Secondary,
    SecondaryForeground,
    Muted,
    MutedForeground,
    Accent,
    AccentForeground,
    Destructive,
    DestructiveForeground,
    Border,
    Ring,
    Success,
    Warning,
    Surface,
    SurfaceHover,
}

/// An adjustment applied to a theme color.
#[derive(Debug, Clone, Copy, PartialEq, Eq, Structural)]
pub enum ColorAdjust {
    /// The color as it is.
    Plain,
    /// The color with its alpha set to the given percentage.
    AlphaPercent(u8),
    /// The color darkened by the given number of lightness points.
    Darken(u8),
}

/// A theme color together with its adjustment.
#[derive(Debug, Clone, Copy, PartialEq, Eq, Structural)]
pub struct ColorChoice {
    pub color: ThemeColor,
    pub adjust: ColorAdjust,
}

/// `c` unadjusted.
pub open spec fn plain(c: ThemeColor) -> ColorChoice {
    ColorChoice { color: c, adjust: ColorAdjust::Plain }
}

/// `c` unadjusted.
pub fn plain_color(c: ThemeColor) -> (r: ColorChoice)
    ensures
        r == plain(c),
{
    ColorChoice { color: c, adjust: ColorAdjust::Plain }
}

} // verus!
