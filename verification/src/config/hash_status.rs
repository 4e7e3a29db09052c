//! How far the hashing of a file has gone.
use vstd::prelude::*;

verus! {

pub const NONE: i32 = 0;
pub const PARTIAL: i32 = 1;
pub const FULL: i32 = 2;

} // verus!
