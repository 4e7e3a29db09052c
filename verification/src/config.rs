//! Names, limits and codes of the index, and the small rules that depend on them.
use vstd::prelude::*;
use crate::text::{lowercase, str_eq, str_to_lowercase};

pub mod exit_code;
pub mod hash_status;
pub mod hash_type;
pub mod scan_status;
pub mod volume_type;

verus! {

pub const FDB_DIR_NAME: &'static str = "fdb";
pub const FDB_FILE_NAME: &'static str = "getdub.fdb";
pub const LOG_FILE_NAME: &'static str = "getdub.log";

pub const BATCH_SIZE: usize = 1000;
pub const CHECKPOINT_EVERY_N_BATCHES: usize = 10;
pub const HASH_QUERY_LIMIT: usize = 100_000;
pub const USN_BUFFER_SIZE: usize = 65_536;

pub const PARTIAL_HASH_SIZE: usize = 4096;
pub const MMAP_SIZE_THRESHOLD: u64 = 67_108_864;
pub const STREAMING_BUF_SIZE: usize = 1_048_576;

pub const SQLITE_MMAP_SIZE: i64 = 268_435_456;
pub const SQLITE_CACHE_SIZE_KB: i64 = -2_000_000;
pub const SQLITE_BUSY_TIMEOUT_MS: i64 = 5000;

/// Directory names that a scan never enters, in lower case.
pub open spec fn skip_dir_names() -> Seq<Seq<char>> {
    seq![
        "$recycle.bin"@,
        "system volume information"@,
        "$windows.~bt"@,
        "$windows.~ws"@,
    ]
}

/// The PRAGMA statements run on every connection to the index.
pub open spec fn pragma_init_text() -> Seq<char> {
    "PRAGMA journal_mode       = WAL; PRAGMA synchronous        = NORMAL; PRAGMA temp_store         = MEMORY; PRAGMA mmap_size          = 268435456; PRAGMA cache_size         = -2000000; PRAGMA busy_timeout       = 5000; PRAGMA foreign_keys       = ON; PRAGMA recursive_triggers = ON;"@
}

pub fn sqlite_pragma_init() -> (r: &'static str)
    ensures
        r@ == pragma_init_text(),
{
    let r = "PRAGMA journal_mode       = WAL; PRAGMA synchronous        = NORMAL; PRAGMA temp_store         = MEMORY; PRAGMA mmap_size          = 268435456; PRAGMA cache_size         = -2000000; PRAGMA busy_timeout       = 5000; PRAGMA foreign_keys       = ON; PRAGMA recursive_triggers = ON;";
    proof {
        reveal_strlit("PRAGMA journal_mode       = WAL; PRAGMA synchronous        = NORMAL; PRAGMA temp_store         = MEMORY; PRAGMA mmap_size          = 268435456; PRAGMA cache_size         = -2000000; PRAGMA busy_timeout       = 5000; PRAGMA foreign_keys       = ON; PRAGMA recursive_triggers = ON;");
    }
    r
}

/// Whether a directory is one that scans skip: its lower-cased name is one of
/// the system directories of [`skip_dir_names`].
pub fn is_skipped_dir(name: &str) -> (r: bool)
    ensures
        r == skip_dir_names().contains(lowercase(name@)),
{
    let lower = str_to_lowercase(name);
    let l = lower.as_str();
    let r = str_eq(l, "$recycle.bin") || str_eq(l, "system volume information") || str_eq(
        l,
        "$windows.~bt",
    ) || str_eq(l, "$windows.~ws");
    proof {
        let s = skip_dir_names();
        if r {
            if l@ == "$recycle.bin"@ {
                assert(s[0] == l@);
            } else if l@ == "system volume information"@ {
                assert(s[1] == l@);
            } else if l@ == "$windows.~bt"@ {
                assert(s[2] == l@);
            } else {
                assert(s[3] == l@);
            }
        } else {
            assert forall|i: int| 0 <= i < s.len() implies s[i] != l@ by {}
        }
    }
    r
}

} // verus!
