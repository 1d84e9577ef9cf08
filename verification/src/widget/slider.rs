//! Slider orientation.
use vstd::prelude::*;

verus! {

/// Which way a slider runs.
#[derive(Debug, Clone, Copy, PartialEq, Eq, Structural)]
pub enum SliderOrientation {
    Horizontal,
    Vertical,
}

impl Default for SliderOrientation {
    fn default() -> (r: Self)
        ensures
            r == SliderOrientation::Horizontal,
    {
        SliderOrientation::Horizontal
    }
}

} // verus!
