//! States of a scan in the scan log.
use vstd::prelude::*;

verus! {

pub const RUNNING: &'static str = "running";
pub const DONE: &'static str = "done";
pub const FAILED: &'static str = "failed";

} // verus!
