//! File-system codes stored with each volume.
use vstd::prelude::*;

verus! {

pub const UNKNOWN: i32 = 0;
pub const NTFS: i32 = 1;
pub const FAT32: i32 = 2;
pub const EXFAT: i32 = 3;
pub const ARCHIVE: i32 = 4;

} // verus!
