//! Process exit codes; each failed check of the index has its own.
use vstd::prelude::*;

verus! {

pub const OK: i32 = 0;
pub const GENERAL: i32 = 1;
pub const USAGE: i32 = 2;
pub const VERIFY_DB_INTEGRITY: i32 = 10;
pub const VERIFY_VOLUME_MISSING: i32 = 11;
pub const VERIFY_FILES_COUNT: i32 = 12;
pub const VERIFY_HASHES: i32 = 13;
pub const VERIFY_DUP_GROUPS: i32 = 14;
pub const VERIFY_DUP_MEMBERS: i32 = 15;
pub const VERIFY_USN: i32 = 16;
pub const VERIFY_IGNORED: i32 = 17;

} // verus!
