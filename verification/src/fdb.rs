//! The records of the index and the decisions made when the index is written:
//! what an upsert does to an existing row, how a write batch counts its rows,
//! how duplicate groups and exported rows are formed.
use vstd::prelude::*;
use crate::config::{hash_type, BATCH_SIZE};
use crate::fs::{FileEntry, opt_view};
use crate::text::{hex_digit_char, hex_of, push_char};

verus! {

/// What the index stores about one file.
#[derive(Debug, Clone)]
pub struct FileMeta {
    pub filename: String,
    pub path_rel: String,
    pub extension: Option<String>,
    pub size: i64,
    pub created: Option<i64>,
    pub modified: Option<i64>,
    pub accessed: Option<i64>,
    pub attributes: Option<i64>,
    pub usn: Option<i64>,
}

pub fn clone_opt_string(o: &Option<String>) -> (r: Option<String>)
    ensures
        opt_view(r) == opt_view(*o),
{
    match o {
        Some(s) => Some(s.clone()),
        None => None,
    }
}

impl FileMeta {
    /// The metadata of a scanned file, without a journal position.
    pub fn from_entry(entry: &FileEntry) -> (r: FileMeta)
        ensures
            r.filename@ == entry.filename@,
            r.path_rel@ == entry.path_rel@,
            opt_view(r.extension) == opt_view(entry.extension),
            r.size == entry.size,
            r.created == entry.created,
            r.modified == entry.modified,
            r.accessed == entry.accessed,
            r.attributes == entry.attributes,
            r.usn is None,
    {
        FileMeta {
            filename: entry.filename.clone(),
            path_rel: entry.path_rel.clone(),
            extension: clone_opt_string(&entry.extension),
            size: entry.size,
            created: entry.created,
            modified: entry.modified,
            accessed: entry.accessed,
            attributes: entry.attributes,
            usn: None,
        }
    }
}

/// Why a path was recorded as ignored.
#[derive(Debug, Clone, Copy, PartialEq, Eq, Structural)]
pub enum IgnoreReason {
    Permission,
    IoError,
    SymlinkBroken,
    System,
    Hidden,
}

/// The text stored for each reason.
pub open spec fn ignore_reason_text(r: IgnoreReason) -> Seq<char> {
    match r {
        IgnoreReason::Permission => "permission"@,
        IgnoreReason::IoError => "ioerror"@,
        IgnoreReason::SymlinkBroken => "symlink_broken"@,
        IgnoreReason::System => "system"@,
        IgnoreReason::Hidden => "hidden"@,
    }
}

impl IgnoreReason {
    pub fn as_str(&self) -> (r: &'static str)
        ensures
            r@ == ignore_reason_text(*self),
    {
        match self {
            IgnoreReason::Permission => "permission",
            IgnoreReason::IoError => "ioerror",
            IgnoreReason::SymlinkBroken => "symlink_broken",
            IgnoreReason::System => "system",
            IgnoreReason::Hidden => "hidden",
        }
    }

    /// The text of the reason, as written to the index.
    pub fn to_string(&self) -> (r: String)
        ensures
            r@ == ignore_reason_text(*self),
    {
        self.as_str().to_owned()
    }
}

/// A volume as registered in the index.
#[derive(Debug, Clone)]
pub struct VolumeInfo {
    pub path: String,
    pub volume_type: i32,
    pub label: Option<String>,
}

/// One exported row of the index.
#[derive(Debug)]
pub struct FileRow {
    pub id: i64,
    pub volume: String,
    pub path: String,
    pub filename: String,
    pub extension: Option<String>,
    pub size: i64,
    pub modified: Option<i64>,
    pub partial_hash: Option<String>,
    pub full_hash: Option<String>,
    pub hash_status: i32,
    pub is_deleted: i32,
}

/// A group of files that share a hash.
#[derive(Debug)]
pub struct DupGroup {
    pub hash_type: i32,
    pub hash_hex: String,
    pub file_count: i32,
    pub total_size: i64,
    pub members: Vec<(i64, String)>,
}

/// Lower-case hexadecimal text of a byte string, two digits per byte.
pub fn hex(b: &[u8]) -> (r: String)
    ensures
        r@ == hex_of(b@),
{
    let mut s = String::new();
    let n = b.len();
    let mut i: usize = 0;
    assert(b@.subrange(0, 0) =~= Seq::<u8>::empty());
    while i < n
        invariant
            0 <= i <= n,
            n == b@.len(),
            s@ == hex_of(b@.subrange(0, i as int)),
        decreases n - i,
    {
        let byte = b[i];
        push_char(&mut s, hex_digit_char(byte / 16));
        push_char(&mut s, hex_digit_char(byte % 16));
        proof {
            let t = b@.subrange(0, i + 1);
            assert(t.drop_last() =~= b@.subrange(0, i as int));
            assert(t.last() == byte);
        }
        assert(s@ =~= hex_of(b@.subrange(0, i + 1)));
        i = i + 1;
    }
    assert(b@.subrange(0, n as int) =~= b@);
    s
}

pub open spec fn opt_hex(h: Option<Vec<u8>>) -> Option<Seq<char>> {
    match h {
        Some(b) => Some(hex_of(b@)),
        None => None,
    }
}

pub fn hex_opt(h: &Option<Vec<u8>>) -> (r: Option<String>)
    ensures
        opt_view(r) == opt_hex(*h),
{
    match h {
        Some(b) => Some(hex(b.as_slice())),
        None => None,
    }
}

impl FileRow {
    /// An exported row from the columns read from the index; the hashes are
    /// written as hexadecimal text.
    pub fn from_columns(
        id: i64,
        volume: String,
        path: String,
        filename: String,
        extension: Option<String>,
        size: i64,
        modified: Option<i64>,
        partial_hash: Option<Vec<u8>>,
        full_hash: Option<Vec<u8>>,
        hash_status: i32,
        is_deleted: i32,
    ) -> (r: FileRow)
        ensures
            r.id == id,
            r.volume@ == volume@,
            r.path@ == path@,
            r.filename@ == filename@,
            opt_view(r.extension) == opt_view(extension),
            r.size == size,
            r.modified == modified,
            opt_view(r.partial_hash) == opt_hex(partial_hash),
            opt_view(r.full_hash) == opt_hex(full_hash),
            r.hash_status == hash_status,
            r.is_deleted == is_deleted,
    {
        let partial = hex_opt(&partial_hash);
        let full = hex_opt(&full_hash);
        FileRow {
            id,
            volume,
            path,
            filename,
            extension,
            size,
            modified,
            partial_hash: partial,
            full_hash: full,
            hash_status,
            is_deleted,
        }
    }
}

impl DupGroup {
    /// A group of files with the same full hash, with the count and total size
    /// the index reported for it.
    pub fn full(hash: &[u8], file_count: i32, total_size: i64, members: Vec<(i64, String)>) -> (r: DupGroup)
        ensures
            r.hash_type == hash_type::FULL,
            r.hash_hex@ == hex_of(hash@),
            r.file_count == file_count,
            r.total_size == total_size,
            r.members@ == members@,
    {
        DupGroup { hash_type: hash_type::FULL, hash_hex: hex(hash), file_count, total_size, members }
    }

    /// A group of candidate files with the same size and partial hash; its
    /// total size is the size times the number of files.
    pub fn partial(size: i64, hash: &[u8], file_count: i32, members: Vec<(i64, String)>) -> (r: DupGroup)
        requires
            i64::MIN <= size * file_count <= i64::MAX,
        ensures
            r.hash_type == hash_type::PARTIAL,
            r.hash_hex@ == hex_of(hash@),
            r.file_count == file_count,
            r.total_size == size * file_count,
            r.members@ == members@,
    {
        let total = size * (file_count as i64);
        DupGroup { hash_type: hash_type::PARTIAL, hash_hex: hex(hash), file_count, total_size: total, members }
    }
}

/// The column holding the hash of a given type.
pub open spec fn hash_column_of(h_type: i32) -> Seq<char> {
    if h_type == hash_type::FULL {
        "full_hash"@
    } else {
        "partial_hash"@
    }
}

/// The query listing the live files whose hash of the given type equals the
/// bound parameter, with their full paths, in path order.
pub open spec fn members_by_hash_query(h_type: i32) -> Seq<char> {
    "SELECT f.id, v.path || f.path_rel FROM files f JOIN volumes v ON v.id = f.volume_id WHERE f."@
        + hash_column_of(h_type) + " = ?1 AND f.is_deleted = 0 ORDER BY f.path_rel"@
}

pub fn hash_column(h_type: i32) -> (r: &'static str)
    ensures
        r@ == hash_column_of(h_type),
{
    if h_type == hash_type::FULL {
        "full_hash"
    } else {
        "partial_hash"
    }
}

pub fn members_by_hash_sql(h_type: i32) -> (r: String)
    ensures
        r@ == members_by_hash_query(h_type),
        occurs_in(" AND f.is_deleted = 0"@, r@),
{
    proof {
        member_query_lists_live_files_only(h_type);
    }
    let mut q = String::new();
    q.append(
        "SELECT f.id, v.path || f.path_rel FROM files f JOIN volumes v ON v.id = f.volume_id WHERE f.",
    );
    q.append(hash_column(h_type));
    q.append(" = ?1 AND f.is_deleted = 0 ORDER BY f.path_rel");
    q
}

/// `t` occurs in `s` as a stretch of consecutive characters.
pub open spec fn occurs_in(t: Seq<char>, s: Seq<char>) -> bool {
    exists|k: int| 0 <= k && k + t.len() <= s.len() && #[trigger] s.subrange(k, k + t.len()) == t
}

/// The member query is one query for both hash types: the query for any
/// type is the full-hash query with its `full_hash` column replaced by the
/// type's column, and it always keeps to live files (`f.is_deleted = 0`).
pub proof fn member_query_lists_live_files_only(h_type: i32)
    ensures
        members_by_hash_query(hash_type::FULL).subrange(92, 101) == "full_hash"@,
        members_by_hash_query(h_type) == members_by_hash_query(hash_type::FULL).subrange(0, 92)
            + hash_column_of(h_type) + members_by_hash_query(hash_type::FULL).subrange(101, 147),
        occurs_in(" AND f.is_deleted = 0"@, members_by_hash_query(h_type)),
{
    reveal_strlit(
        "SELECT f.id, v.path || f.path_rel FROM files f JOIN volumes v ON v.id = f.volume_id WHERE f.",
    );
    reveal_strlit(" = ?1 AND f.is_deleted = 0 ORDER BY f.path_rel");
    reveal_strlit(" AND f.is_deleted = 0");
    reveal_strlit("full_hash");
    reveal_strlit("partial_hash");
    let pre = "SELECT f.id, v.path || f.path_rel FROM files f JOIN volumes v ON v.id = f.volume_id WHERE f."@;
    let post = " = ?1 AND f.is_deleted = 0 ORDER BY f.path_rel"@;
    let full = members_by_hash_query(hash_type::FULL);
    let q = members_by_hash_query(h_type);
    let col = hash_column_of(h_type);
    assert(pre.len() == 92);
    assert(post.len() == 46);
    assert(full.len() == 147);
    assert(full.subrange(92, 101) =~= "full_hash"@);
    assert(full.subrange(0, 92) =~= pre);
    assert(full.subrange(101, 147) =~= post);
    assert(q =~= pre + col + post);
    let k: int = 97 + col.len() as int;
    assert(q.subrange(k, k + 21) =~= " AND f.is_deleted = 0"@);
}

/// The answer of `PRAGMA integrity_check` that means the index is sound.
pub fn integrity_passed(answer: &str) -> (r: bool)
    ensures
        r == (answer@ == "ok"@),
{
    crate::text::str_eq(answer, "ok")
}

/// What an upsert does with a scanned file.
#[derive(Debug, Clone, Copy, PartialEq, Eq, Structural)]
pub enum UpsertAction {
    /// The row exists with the same modification time: only mark it seen
    /// (size and attributes are refreshed; hashes are kept).
    Touch(i64),
    /// The row exists but changed: rewrite its metadata and forget its hashes.
    Rewrite(i64),
    /// No row yet: insert one.
    Insert,
}

/// The existing row (its id and stored modification time), if any, decides:
/// an unchanged modification time (a missing scanned time counts as 0) keeps
/// the hashes; any other existing row is rewritten; no row means an insert.
pub open spec fn upsert_action_for(existing: Option<(i64, Option<i64>)>, modified: Option<i64>) -> UpsertAction {
    match existing {
        None => UpsertAction::Insert,
        Some((id, stored)) => {
            let scanned = match modified {
                Some(m) => m,
                None => 0,
            };
            if stored == Some(scanned) {
                UpsertAction::Touch(id)
            } else {
                UpsertAction::Rewrite(id)
            }
        },
    }
}

pub fn decide_upsert(existing: Option<(i64, Option<i64>)>, modified: Option<i64>) -> (r: UpsertAction)
    ensures
        r == upsert_action_for(existing, modified),
{
    match existing {
        Some((id, Some(old_mod))) if old_mod == modified.unwrap_or(0) => UpsertAction::Touch(id),
        Some((id, _)) => UpsertAction::Rewrite(id),
        None => UpsertAction::Insert,
    }
}

/// The rows a write batch has inserted and updated so far.
#[derive(Debug, Clone, Copy)]
pub struct BatchCounts {
    pub inserted: i64,
    pub updated: i64,
}

impl BatchCounts {
    pub fn new() -> (r: BatchCounts)
        ensures
            r.inserted == 0,
            r.updated == 0,
    {
        BatchCounts { inserted: 0, updated: 0 }
    }

    /// Counts one upsert: an insert adds to the inserted rows, a touch or a
    /// rewrite to the updated ones.
    pub fn record(&mut self, action: UpsertAction)
        requires
            old(self).inserted < i64::MAX,
            old(self).updated < i64::MAX,
        ensures
            action is Insert ==> final(self).inserted == old(self).inserted + 1 && final(self).updated == old(self).updated,
            !(action is Insert) ==> final(self).updated == old(self).updated + 1 && final(self).inserted == old(self).inserted,
    {
        match action {
            UpsertAction::Insert => {
                self.inserted = self.inserted + 1;
            },
            _ => {
                self.updated = self.updated + 1;
            },
        }
    }

    /// A batch is committed once it holds at least `BATCH_SIZE` rows.
    pub fn is_full(&self) -> (r: bool)
        requires
            i64::MIN <= self.inserted + self.updated <= i64::MAX,
        ensures
            r == (self.inserted + self.updated >= BATCH_SIZE),
    {
        self.inserted + self.updated >= BATCH_SIZE as i64
    }
}

} // verus!

verus! {

proof fn lemma_hex_digit_injective(a: nat, b: nat)
    requires
        a < 16,
        b < 16,
        crate::text::hex_digit(a) == crate::text::hex_digit(b),
    ensures
        a == b,
{
}

/// The hexadecimal text of a byte string has two characters per byte, each
/// a lower-case hexadecimal digit.
pub proof fn hex_shape(b: Seq<u8>)
    ensures
        hex_of(b).len() == 2 * b.len(),
        forall|i: int| 0 <= i < hex_of(b).len() ==> {
            let c = #[trigger] hex_of(b)[i];
            ('0' <= c && c <= '9') || ('a' <= c && c <= 'f')
        },
    decreases b.len(),
{
    if b.len() > 0 {
        hex_shape(b.drop_last());
        let p = hex_of(b.drop_last());
        let q = hex_of(b);
        assert forall|i: int| 0 <= i < q.len() implies {
            let c = #[trigger] q[i];
            ('0' <= c && c <= '9') || ('a' <= c && c <= 'f')
        } by {
            if i < p.len() {
                assert(q[i] == p[i]);
            }
        }
    }
}

/// Different byte strings have different hexadecimal texts, so a hash is
/// never confused with another through its text.
pub proof fn hex_injective(a: Seq<u8>, b: Seq<u8>)
    requires
        hex_of(a) == hex_of(b),
    ensures
        a == b,
    decreases a.len(),
{
    hex_shape(a);
    hex_shape(b);
    if a.len() > 0 {
        let ha = hex_of(a);
        let hb = hex_of(b);
        let n = ha.len();
        assert(ha[n - 2] == hb[n - 2]);
        assert(ha[n - 1] == hb[n - 1]);
        lemma_hex_digit_injective((a.last() / 16) as nat, (b.last() / 16) as nat);
        lemma_hex_digit_injective((a.last() % 16) as nat, (b.last() % 16) as nat);
        assert(a.last() == b.last());
        assert(hex_of(a.drop_last()) =~= ha.subrange(0, n - 2));
        assert(hex_of(b.drop_last()) =~= hb.subrange(0, n - 2));
        hex_injective(a.drop_last(), b.drop_last());
        assert(a =~= a.drop_last().push(a.last()));
        assert(b =~= b.drop_last().push(b.last()));
    }
}

/// Re-indexing a file whose modification time has not changed keeps its row
/// and its hashes; a file the index has never seen is inserted.
pub proof fn unchanged_file_keeps_its_row(id: i64, modified: i64)
    ensures
        upsert_action_for(Some((id, Some(modified))), Some(modified)) == UpsertAction::Touch(id),
        forall|m: Option<i64>| #[trigger] upsert_action_for(None, m) == UpsertAction::Insert,
{
}

/// A row whose stored modification time differs from the scanned one is
/// rewritten, which forgets its hashes.
pub proof fn changed_file_is_rewritten(id: i64, stored: Option<i64>, modified: Option<i64>)
    requires
        stored != Some(
            match modified {
                Some(m) => m,
                None => 0,
            },
        ),
    ensures
        upsert_action_for(Some((id, stored)), modified) == UpsertAction::Rewrite(id),
{
}

} // verus!
