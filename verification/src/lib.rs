//! Widget models for a CSS-styled desktop UI toolkit: the state, builders,
//! queries and input handling of each widget, with their contracts.
use vstd::prelude::*;

pub mod css;
pub mod date;
pub mod event;
pub mod text;
pub mod theme;
pub mod time;
pub mod widget;

verus! {
}
