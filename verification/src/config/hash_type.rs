//! Which hash a duplicate group was formed by.
use vstd::prelude::*;

verus! {

pub const PARTIAL: i32 = 1;
pub const FULL: i32 = 2;

} // verus!
