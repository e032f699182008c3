//! A copy-on-write container that either borrows data or owns it, read
//! through one view whatever it holds.

use vstd::prelude::*;

pub mod cow;
pub mod family;

pub use cow::Cow;
pub use family::{reported_capacity, Beef, BeefEq};

verus! {

} // verus!
