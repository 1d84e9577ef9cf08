//! Spinner sizes.
use vstd::prelude::*;

verus! {

/// The size of a loading spinner.
#[derive(Debug, Clone, Copy, PartialEq, Eq, Structural)]
pub enum SpinnerSize {
    Small,
    Medium,
    Large,
    XLarge,
}

impl Default for SpinnerSize {
    fn default() -> (r: Self)
        ensures
            r == SpinnerSize::Medium,
    {
        SpinnerSize::Medium
    }
}

} // verus!
