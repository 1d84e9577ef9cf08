//! Scroll bar visibility for scrollable containers.
use vstd::prelude::*;

verus! {

/// When a scroll bar shows.
#[derive(Debug, Clone, Copy, PartialEq, Eq, Structural)]
pub enum ScrollBarVisibility {
    Always,
    Auto,
    Hidden,
}

impl Default for ScrollBarVisibility {
    fn default() -> (r: Self)
        ensures
            r == ScrollBarVisibility::Auto,
    {
        ScrollBarVisibility::Auto
    }
}

/// Whether a scroll bar with this setting shows, given whether the content
/// overflows the view along its axis.
pub open spec fn bar_shows(v: ScrollBarVisibility, overflows: bool) -> bool {
    match v {
        ScrollBarVisibility::Always => true,
        ScrollBarVisibility::Hidden => false,
        ScrollBarVisibility::Auto => overflows,
    }
}

impl ScrollBarVisibility {
    /// Whether the bar shows (see `bar_shows`).
    pub fn shows(&self, overflows: bool) -> (r: bool)
        ensures
            r == bar_shows(*self, overflows),
    {
        match self {
            ScrollBarVisibility::Always => true,
            ScrollBarVisibility::Hidden => false,
            ScrollBarVisibility::Auto => overflows,
        }
    }
}

} // verus!
