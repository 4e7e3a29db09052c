//! Index of files on local volumes, and the rules by which the index finds
//! duplicate files: volume and path naming, scan filters, hashing decisions,
//! the bookkeeping of a scan and the checks of an index.
use vstd::prelude::*;

pub mod config;
pub mod fdb;
pub mod fs;
pub mod idxer;
pub mod logger;
pub mod pattern;
pub mod testing;
pub mod text;
pub mod verify;

verus! {

} // verus!
