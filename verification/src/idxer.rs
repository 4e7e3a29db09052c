//! The indexer: how drive names are normalised, which patterns a run filters
//! by, how a scan is tallied and shown, and how file contents are hashed.
use vstd::prelude::*;
use crate::config::{hash_status, volume_type, BATCH_SIZE, MMAP_SIZE_THRESHOLD, PARTIAL_HASH_SIZE};
use crate::fdb::BatchCounts;
use crate::fs::{FsType, ScanOpts};
use crate::pattern::string_views;
use crate::text::{
    decimal_pad2, is_white_space, push_char, push_decimal_pad2, trim, trim_end, trim_start, trimmed,
};

verus! {

// ---------------------------------------------------------------------------
// Drive names
// ---------------------------------------------------------------------------

pub open spec fn is_ascii_alpha(c: char) -> bool {
    ('a' <= c && c <= 'z') || ('A' <= c && c <= 'Z')
}

/// ASCII upper case of one character; other characters are unchanged.
pub open spec fn ascii_upper_of(c: char) -> char {
    if 'a' <= c && c <= 'z' {
        ((c as u32) - 32) as char
    } else {
        c
    }
}

/// How a drive given on the command line is written in the index: a single
/// letter `c` and a letter with colon `c:` both become `C:\`; anything else is
/// only trimmed. The two short forms are texts of one and two bytes: a
/// one-byte text is one ASCII character, and a two-byte text ending in `:` is
/// one ASCII character and `:`.
pub open spec fn normalized_drive_root(s: Seq<char>) -> Seq<char> {
    let t = trimmed(s);
    if t.len() == 1 && is_ascii_alpha(t[0]) {
        seq![ascii_upper_of(t[0]), ':', '\\']
    } else if t.len() == 2 && (t[0] as u32) < 128 && t[1] == ':' {
        seq![ascii_upper_of(t[0]), ':', '\\']
    } else {
        t
    }
}

fn ascii_upper(c: char) -> (r: char)
    ensures
        r == ascii_upper_of(c),
{
    if 'a' <= c && c <= 'z' {
        let u: u32 = c as u32;
        let v: u8 = (u - 32) as u8;
        v as char
    } else {
        c
    }
}

pub fn normalize_drive_root(s: &str) -> (r: String)
    ensures
        r@ == normalized_drive_root(s@),
{
    let t = trim(s);
    let n = t.unicode_len();
    if n == 1 && (('a' <= t.get_char(0) && t.get_char(0) <= 'z') || ('A' <= t.get_char(0)
        && t.get_char(0) <= 'Z')) {
        let mut r = String::new();
        push_char(&mut r, ascii_upper(t.get_char(0)));
        push_char(&mut r, ':');
        push_char(&mut r, '\\');
        assert(r@ =~= seq![ascii_upper_of(t@[0]), ':', '\\']);
        r
    } else if n == 2 && (t.get_char(0) as u32) < 128 && t.get_char(1) == ':' {
        let mut r = String::new();
        push_char(&mut r, ascii_upper(t.get_char(0)));
        push_char(&mut r, ':');
        push_char(&mut r, '\\');
        assert(r@ =~= seq![ascii_upper_of(t@[0]), ':', '\\']);
        r
    } else {
        t.to_owned()
    }
}

proof fn lemma_trim_start_shape(s: Seq<char>)
    ensures
        trim_start(s).len() == 0 || !is_white_space(trim_start(s)[0]),
        exists|k: int| 0 <= k <= s.len() && trim_start(s) == s.subrange(k, s.len() as int),
    decreases s.len(),
{
    if s.len() > 0 && is_white_space(s[0]) {
        lemma_trim_start_shape(s.drop_first());
        let k = choose|k: int|
            0 <= k <= s.drop_first().len() && trim_start(s.drop_first()) == s.drop_first().subrange(
                k,
                s.drop_first().len() as int,
            );
        assert(s.drop_first().subrange(k, s.drop_first().len() as int) =~= s.subrange(
            k + 1,
            s.len() as int,
        ));
    } else {
        assert(s.subrange(0, s.len() as int) =~= s);
    }
}

proof fn lemma_trim_end_shape(s: Seq<char>)
    ensures
        trim_end(s).len() == 0 || !is_white_space(trim_end(s).last()),
        exists|k: int| 0 <= k <= s.len() && trim_end(s) == s.subrange(0, k),
    decreases s.len(),
{
    if s.len() > 0 && is_white_space(s.last()) {
        lemma_trim_end_shape(s.drop_last());
        let k = choose|k: int|
            0 <= k <= s.drop_last().len() && trim_end(s.drop_last()) == s.drop_last().subrange(0, k);
        assert(s.drop_last().subrange(0, k) =~= s.subrange(0, k));
    } else {
        assert(s.subrange(0, s.len() as int) =~= s);
    }
}

/// A text that neither starts nor ends with whitespace is its own trim.
proof fn lemma_trimmed_fixed(t: Seq<char>)
    requires
        t.len() == 0 || (!is_white_space(t[0]) && !is_white_space(t.last())),
    ensures
        trimmed(t) == t,
{
}

/// Trimming twice is trimming once.
pub proof fn lemma_trimmed_idempotent(s: Seq<char>)
    ensures
        trimmed(trimmed(s)) == trimmed(s),
{
    let a = trim_start(s);
    lemma_trim_start_shape(s);
    lemma_trim_end_shape(a);
    let t = trim_end(a);
    let k = choose|k: int| 0 <= k <= a.len() && t == a.subrange(0, k);
    if t.len() > 0 {
        assert(t[0] == a[0]);
    }
    lemma_trimmed_fixed(t);
}

/// Normalising a drive root twice gives what normalising once gives.
pub proof fn normalize_drive_root_idempotent(s: Seq<char>)
    ensures
        normalized_drive_root(normalized_drive_root(s)) == normalized_drive_root(s),
{
    let t = trimmed(s);
    let r = normalized_drive_root(s);
    lemma_trimmed_idempotent(s);
    if (t.len() == 1 && is_ascii_alpha(t[0])) || (t.len() == 2 && (t[0] as u32) < 128 && t[1]
        == ':') {
        lemma_trim_start_shape(s);
        let a = trim_start(s);
        lemma_trim_end_shape(a);
        let k = choose|k: int| 0 <= k <= a.len() && t == a.subrange(0, k);
        assert(t[0] == a[0]);
        assert(!is_white_space(t[0]));
        assert(!is_white_space(r[0]));
        assert(r.last() == '\\');
        lemma_trimmed_fixed(r);
    }
}

// ---------------------------------------------------------------------------
// Durations and progress
// ---------------------------------------------------------------------------

/// `HH:MM:SS` for a number of seconds; the hours field grows past two digits.
pub open spec fn duration_text(secs: nat) -> Seq<char> {
    decimal_pad2(secs / 3600) + seq![':'] + decimal_pad2((secs % 3600) / 60) + seq![':']
        + decimal_pad2(secs % 60)
}

pub fn format_duration(secs: u64) -> (r: String)
    ensures
        r@ == duration_text(secs as nat),
{
    let hours = secs / 3600;
    let minutes = (secs % 3600) / 60;
    let seconds = secs % 60;
    let mut r = String::new();
    push_decimal_pad2(&mut r, hours);
    push_char(&mut r, ':');
    push_decimal_pad2(&mut r, minutes);
    push_char(&mut r, ':');
    push_decimal_pad2(&mut r, seconds);
    assert(r@ =~= duration_text(secs as nat));
    r
}

/// While scanning, progress is shown after every hundredth file and after the
/// last one (`idx` counts from 0).
pub fn scan_progress_due(idx: usize, total: usize) -> (r: bool)
    requires
        idx < total,
    ensures
        r == (idx % 100 == 99 || idx == total - 1),
{
    idx % 100 == 99 || idx == total - 1
}

/// While hashing, progress is shown after every hundredth stored hash and
/// after the last file of the round (`processed` counts from 1).
pub fn hash_progress_due(processed: usize, total: usize) -> (r: bool)
    ensures
        r == (processed % 100 == 0 || processed == total),
{
    processed % 100 == 0 || processed == total
}

// ---------------------------------------------------------------------------
// Include and exclude lists
// ---------------------------------------------------------------------------

/// The pieces of a text between separators, as `str::split` gives them.
pub open spec fn split_on(s: Seq<char>, sep: char) -> Seq<Seq<char>>
    decreases s.len(),
{
    if s.len() == 0 {
        seq![Seq::empty()]
    } else {
        let r = split_on(s.drop_last(), sep);
        if s.last() == sep {
            r.push(Seq::empty())
        } else {
            r.update(r.len() - 1, r.last().push(s.last()))
        }
    }
}

/// The trimmed pieces that are not empty.
pub open spec fn kept_patterns(pieces: Seq<Seq<char>>) -> Seq<Seq<char>>
    decreases pieces.len(),
{
    if pieces.len() == 0 {
        Seq::empty()
    } else {
        let r = kept_patterns(pieces.drop_last());
        let t = trimmed(pieces.last());
        if t.len() > 0 {
            r.push(t)
        } else {
            r
        }
    }
}

/// The patterns of a comma-separated list: split at `,`, trimmed, empty ones
/// dropped; no list gives no patterns.
pub open spec fn pattern_list(s: Option<Seq<char>>) -> Seq<Seq<char>> {
    match s {
        None => Seq::empty(),
        Some(x) => kept_patterns(split_on(x, ',')),
    }
}

pub fn parse_pattern_list(s: Option<&str>) -> (r: Vec<String>)
    ensures
        string_views(r@) == pattern_list(
            match s {
                Some(x) => Some(x@),
                None => None,
            },
        ),
{
    match s {
        None => {
            let r: Vec<String> = Vec::new();
            assert(string_views(r@) =~= Seq::<Seq<char>>::empty());
            r
        },
        Some(x) => {
            let n = x.unicode_len();
            let mut out: Vec<String> = Vec::new();
            let mut cur = String::new();
            let mut i: usize = 0;
            assert(x@.take(0) =~= Seq::<char>::empty());
            assert(string_views(out@) =~= Seq::<Seq<char>>::empty());
            while i < n
                invariant
                    0 <= i <= n,
                    n == x@.len(),
                    split_on(x@.take(i as int), ',').len() >= 1,
                    cur@ == split_on(x@.take(i as int), ',').last(),
                    string_views(out@) == kept_patterns(
                        split_on(x@.take(i as int), ',').drop_last(),
                    ),
                decreases n - i,
            {
                let c = x.get_char(i);
                let ghost p = split_on(x@.take(i as int), ',');
                let ghost q = split_on(x@.take(i + 1), ',');
                assert(x@.take(i + 1).drop_last() =~= x@.take(i as int));
                assert(x@.take(i + 1).last() == c);
                if c == ',' {
                    let t = trim(cur.as_str());
                    let ghost before = string_views(out@);
                    if t.unicode_len() > 0 {
                        out.push(t.to_owned());
                        assert(string_views(out@) =~= before.push(t@));
                    }
                    cur = String::new();
                    assert(q == p.push(Seq::empty()));
                    assert(q.drop_last() =~= p);
                    assert(p.drop_last() =~= p.drop_last());
                    assert(kept_patterns(p) == if trimmed(p.last()).len() > 0 {
                        kept_patterns(p.drop_last()).push(trimmed(p.last()))
                    } else {
                        kept_patterns(p.drop_last())
                    });
                } else {
                    push_char(&mut cur, c);
                    assert(q == p.update(p.len() - 1, p.last().push(c)));
                    assert(q.drop_last() =~= p.drop_last());
                }
                i = i + 1;
            }
            assert(x@.take(n as int) =~= x@);
            let ghost p = split_on(x@, ',');
            let t = trim(cur.as_str());
            let ghost before = string_views(out@);
            if t.unicode_len() > 0 {
                out.push(t.to_owned());
                assert(string_views(out@) =~= before.push(t@));
            }
            assert(kept_patterns(p) == if trimmed(p.last()).len() > 0 {
                kept_patterns(p.drop_last()).push(trimmed(p.last()))
            } else {
                kept_patterns(p.drop_last())
            });
            out
        },
    }
}

// ---------------------------------------------------------------------------
// The indexer
// ---------------------------------------------------------------------------

/// The settings of an indexing run.
pub struct Indexer {
    skip_hidden: bool,
    skip_system: bool,
    includes: Vec<String>,
    excludes: Vec<String>,
    compute_hashes: bool,
}

pub fn clone_strings(v: &Vec<String>) -> (r: Vec<String>)
    ensures
        string_views(r@) == string_views(v@),
{
    let mut r: Vec<String> = Vec::new();
    let n = v.len();
    let mut i: usize = 0;
    while i < n
        invariant
            0 <= i <= n,
            n == v@.len(),
            string_views(r@) == string_views(v@).take(i as int),
        decreases n - i,
    {
        let ghost before = string_views(r@);
        r.push(v[i].clone());
        assert(string_views(r@) =~= before.push(v@[i as int]@));
        assert(string_views(v@).take(i + 1) =~= string_views(v@).take(i as int).push(v@[i as int]@));
        i = i + 1;
    }
    assert(string_views(v@).take(n as int) =~= string_views(v@));
    r
}

impl Indexer {
    pub closed spec fn spec_skip_hidden(&self) -> bool {
        self.skip_hidden
    }

    pub closed spec fn spec_skip_system(&self) -> bool {
        self.skip_system
    }

    pub closed spec fn spec_includes(&self) -> Seq<Seq<char>> {
        string_views(self.includes@)
    }

    pub closed spec fn spec_excludes(&self) -> Seq<Seq<char>> {
        string_views(self.excludes@)
    }

    pub closed spec fn spec_compute_hashes(&self) -> bool {
        self.compute_hashes
    }

    /// An indexer with the include and exclude pattern lists parsed from
    /// their comma-separated texts.
    pub fn new(
        includes_text: Option<&str>,
        excludes_text: Option<&str>,
        skip_hidden: bool,
        skip_system: bool,
        compute_hashes: bool,
    ) -> (r: Indexer)
        ensures
            r.spec_includes() == pattern_list(
                match includes_text {
                    Some(x) => Some(x@),
                    None => None,
                },
            ),
            r.spec_excludes() == pattern_list(
                match excludes_text {
                    Some(x) => Some(x@),
                    None => None,
                },
            ),
            r.spec_skip_hidden() == skip_hidden,
            r.spec_skip_system() == skip_system,
            r.spec_compute_hashes() == compute_hashes,
    {
        Indexer {
            skip_hidden,
            skip_system,
            includes: parse_pattern_list(includes_text),
            excludes: parse_pattern_list(excludes_text),
            compute_hashes,
        }
    }

    /// The scan options of this run.
    pub fn scan_opts(&self) -> (r: ScanOpts)
        ensures
            r.skip_hidden == self.spec_skip_hidden(),
            r.skip_system == self.spec_skip_system(),
            string_views(r.includes@) == self.spec_includes(),
            string_views(r.excludes@) == self.spec_excludes(),
    {
        ScanOpts {
            skip_hidden: self.skip_hidden,
            skip_system: self.skip_system,
            includes: clone_strings(&self.includes),
            excludes: clone_strings(&self.excludes),
        }
    }

    pub fn compute_hashes(&self) -> (r: bool)
        ensures
            r == self.spec_compute_hashes(),
    {
        self.compute_hashes
    }
}

/// The volume code stored for a detected file system.
pub open spec fn volume_type_code(fs: FsType) -> i32 {
    match fs {
        FsType::Ntfs => volume_type::NTFS,
        FsType::Fat32 => volume_type::FAT32,
        FsType::ExFat => volume_type::EXFAT,
        FsType::Unknown => volume_type::UNKNOWN,
    }
}

pub fn volume_type_for(fs: FsType) -> (r: i32)
    ensures
        r == volume_type_code(fs),
{
    match fs {
        FsType::Ntfs => volume_type::NTFS,
        FsType::Fat32 => volume_type::FAT32,
        FsType::ExFat => volume_type::EXFAT,
        _ => volume_type::UNKNOWN,
    }
}

/// What to do after a file was stored: show progress, commit the batch.
#[derive(Debug, Clone, Copy)]
pub struct ScanStep {
    pub show_progress: bool,
    pub commit: bool,
}

/// The running totals of a scan: files stored, and files added by the
/// batches committed so far.
#[derive(Debug, Clone, Copy)]
pub struct ScanTally {
    pub scanned: i64,
    pub added: i64,
}

impl ScanTally {
    pub fn new() -> (r: ScanTally)
        ensures
            r.scanned == 0,
            r.added == 0,
    {
        ScanTally { scanned: 0, added: 0 }
    }

    /// One more file was stored.
    pub fn file_stored(&mut self)
        requires
            old(self).scanned < i64::MAX,
        ensures
            final(self).scanned == old(self).scanned + 1,
            final(self).added == old(self).added,
    {
        self.scanned = self.scanned + 1;
    }

    /// File `idx` of `total` was stored in the batch whose counts are `batch`:
    /// the file is counted, progress is due on the scan cadence, and, when
    /// full batches are committed as the scan goes, a full batch is committed
    /// and its inserted rows counted as added.
    pub fn after_store(&mut self, idx: usize, total: usize, batch: &BatchCounts, commit_full: bool) -> (r: ScanStep)
        requires
            idx < total,
            old(self).scanned < i64::MAX,
            i64::MIN <= batch.inserted + batch.updated <= i64::MAX,
            i64::MIN <= old(self).added + batch.inserted <= i64::MAX,
        ensures
            final(self).scanned == old(self).scanned + 1,
            r.show_progress == (idx % 100 == 99 || idx == total - 1),
            r.commit == (commit_full && batch.inserted + batch.updated >= BATCH_SIZE),
            r.commit ==> final(self).added == old(self).added + batch.inserted,
            !r.commit ==> final(self).added == old(self).added,
    {
        self.file_stored();
        let show_progress = scan_progress_due(idx, total);
        let commit = commit_full && batch.is_full();
        if commit {
            self.batch_committed(batch);
        }
        ScanStep { show_progress, commit }
    }

    /// A batch is committed: its inserted rows count as added.
    pub fn batch_committed(&mut self, batch: &BatchCounts)
        requires
            i64::MIN <= old(self).added + batch.inserted <= i64::MAX,
        ensures
            final(self).added == old(self).added + batch.inserted,
            final(self).scanned == old(self).scanned,
    {
        self.added = self.added + batch.inserted;
    }
}

// ---------------------------------------------------------------------------
// Hashing
// ---------------------------------------------------------------------------

/// The 64-bit XXH3 hash of a byte string (`xxhash_rust::xxh3::xxh3_64`).
pub uninterp spec fn xxh3_64_of(data: Seq<u8>) -> u64;

/// The 32-byte BLAKE3 digest of a byte string.
pub uninterp spec fn blake3_of(data: Seq<u8>) -> Seq<u8>;

/// The bytes fed so far to a BLAKE3 hasher.
pub uninterp spec fn blake3_hasher_input(h: blake3::Hasher) -> Seq<u8>;

#[verifier::external_type_specification]
#[verifier::external_body]
pub struct ExBlake3Hasher(blake3::Hasher);

/// `xxhash_rust::xxh3::xxh3_64`: the hash is named, not described.
#[verifier::external_body]
fn xxh3_64(data: &[u8]) -> (r: u64)
    ensures
        r == xxh3_64_of(data@),
{
    xxhash_rust::xxh3::xxh3_64(data)
}

/// `blake3::hash`: the digest is named, not described; it is 32 bytes long
/// (`blake3::OUT_LEN`).
#[verifier::external_body]
fn blake3_hash(data: &[u8]) -> (r: Vec<u8>)
    ensures
        r@ == blake3_of(data@),
        r@.len() == 32,
{
    blake3::hash(data).as_bytes().to_vec()
}

/// `blake3::Hasher::new`: a hasher that has been fed nothing.
#[verifier::external_body]
fn blake3_hasher_new() -> (h: blake3::Hasher)
    ensures
        blake3_hasher_input(h) == Seq::<u8>::empty(),
{
    blake3::Hasher::new()
}

/// `blake3::Hasher::update`: feeds more bytes after those fed before.
#[verifier::external_body]
fn blake3_hasher_update(h: &mut blake3::Hasher, data: &[u8])
    ensures
        blake3_hasher_input(*final(h)) == blake3_hasher_input(*old(h)) + data@,
{
    h.update(data);
}

/// `blake3::Hasher::finalize`: the crate documents that it returns the digest
/// `blake3::hash` gives for everything fed, concatenated.
#[verifier::external_body]
fn blake3_hasher_finalize(h: &blake3::Hasher) -> (r: Vec<u8>)
    ensures
        r@ == blake3_of(blake3_hasher_input(*h)),
        r@.len() == 32,
{
    h.finalize().as_bytes().to_vec()
}

/// The partial hash of a file from the bytes read at its start: the
/// little-endian bytes of their XXH3 hash, or nothing when nothing was read.
pub open spec fn partial_hash_spec(prefix: Seq<u8>) -> Option<Seq<u8>> {
    if prefix.len() == 0 {
        None
    } else {
        Some(vstd::bytes::spec_u64_to_le_bytes(xxh3_64_of(prefix)))
    }
}

pub open spec fn opt_bytes(o: Option<Vec<u8>>) -> Option<Seq<u8>> {
    match o {
        Some(v) => Some(v@),
        None => None,
    }
}

pub fn partial_hash_of(prefix: &[u8]) -> (r: Option<Vec<u8>>)
    requires
        prefix@.len() <= PARTIAL_HASH_SIZE,
    ensures
        opt_bytes(r) == partial_hash_spec(prefix@),
        r matches Some(v) ==> v@.len() == 8,
{
    if prefix.len() == 0 {
        return None;
    }
    let h = xxh3_64(prefix);
    Some(vstd::bytes::u64_to_le_bytes(h))
}

/// The full hash of a file's contents: their BLAKE3 digest.
pub fn full_hash_of(data: &[u8]) -> (r: Vec<u8>)
    ensures
        r@ == blake3_of(data@),
        r@.len() == 32,
{
    blake3_hash(data)
}

/// How the full hash of a file is taken, from its length: an empty file has
/// none; a file under `MMAP_SIZE_THRESHOLD` bytes is hashed from a mapping of
/// it; a larger one is read in chunks into a [`StreamHasher`].
#[derive(Debug, Clone, Copy, PartialEq, Eq, Structural)]
pub enum FullHashMethod {
    Empty,
    Mapped,
    Streamed,
}

pub fn full_hash_method(len: u64) -> (r: FullHashMethod)
    ensures
        len == 0 ==> r == FullHashMethod::Empty,
        0 < len < MMAP_SIZE_THRESHOLD ==> r == FullHashMethod::Mapped,
        len >= MMAP_SIZE_THRESHOLD ==> r == FullHashMethod::Streamed,
{
    if len == 0 {
        FullHashMethod::Empty
    } else if len < MMAP_SIZE_THRESHOLD {
        FullHashMethod::Mapped
    } else {
        FullHashMethod::Streamed
    }
}

/// A BLAKE3 digest taken over bytes fed in pieces.
pub struct StreamHasher {
    inner: blake3::Hasher,
}

impl View for StreamHasher {
    type V = Seq<u8>;

    /// Everything fed so far.
    closed spec fn view(&self) -> Seq<u8> {
        blake3_hasher_input(self.inner)
    }
}

impl StreamHasher {
    pub fn new() -> (r: StreamHasher)
        ensures
            r@ == Seq::<u8>::empty(),
    {
        StreamHasher { inner: blake3_hasher_new() }
    }

    pub fn update(&mut self, data: &[u8])
        ensures
            final(self)@ == old(self)@ + data@,
    {
        blake3_hasher_update(&mut self.inner, data);
    }

    /// The digest of everything fed: the same as [`full_hash_of`] of it.
    pub fn finalize(&self) -> (r: Vec<u8>)
        ensures
            r@ == blake3_of(self@),
            r@.len() == 32,
    {
        blake3_hasher_finalize(&self.inner)
    }
}

/// A file is hashed in full only when it is larger than the partial-hash
/// prefix; a smaller file's partial hash already covers it.
pub fn needs_full_hash(size: i64) -> (r: bool)
    ensures
        r == (size > PARTIAL_HASH_SIZE),
{
    size > PARTIAL_HASH_SIZE as i64
}

/// The hash status stored for a file from which of its hashes are known.
pub open spec fn hash_status_of(has_partial: bool, has_full: bool) -> i32 {
    if has_partial && has_full {
        hash_status::FULL
    } else if has_partial {
        hash_status::PARTIAL
    } else {
        hash_status::NONE
    }
}

pub fn hash_status_for(has_partial: bool, has_full: bool) -> (r: i32)
    ensures
        r == hash_status_of(has_partial, has_full),
{
    match (has_partial, has_full) {
        (true, true) => hash_status::FULL,
        (true, false) => hash_status::PARTIAL,
        _ => hash_status::NONE,
    }
}

/// The hashes to store for one file.
#[derive(Debug)]
pub struct HashRecord {
    pub id: i64,
    pub partial: Option<Vec<u8>>,
    pub full: Option<Vec<u8>>,
    pub status: i32,
}

pub fn clone_opt_bytes(o: &Option<Vec<u8>>) -> (r: Option<Vec<u8>>)
    ensures
        opt_bytes(r) == opt_bytes(*o),
{
    match o {
        Some(v) => Some(v.clone()),
        None => None,
    }
}

/// The full hash stored for a file: the computed one for a file larger than
/// the prefix, the partial hash otherwise.
pub open spec fn stored_full_hash(size: i64, partial: Option<Seq<u8>>, computed_full: Option<Seq<u8>>) -> Option<Seq<u8>> {
    if size > PARTIAL_HASH_SIZE {
        computed_full
    } else {
        partial
    }
}

/// What a hashing round stores for a file of the given size, from its partial
/// hash and (for a file larger than the prefix) its computed full hash:
/// nothing when neither hash could be taken.
pub fn hash_record(id: i64, size: i64, partial: Option<Vec<u8>>, computed_full: Option<Vec<u8>>) -> (r: Option<HashRecord>)
    ensures
        ({
            let full = stored_full_hash(size, opt_bytes(partial), opt_bytes(computed_full));
            match r {
                None => opt_bytes(partial) is None && full is None,
                Some(rec) => {
                    &&& !(opt_bytes(partial) is None && full is None)
                    &&& rec.id == id
                    &&& opt_bytes(rec.partial) == opt_bytes(partial)
                    &&& opt_bytes(rec.full) == full
                    &&& rec.status == hash_status_of(opt_bytes(partial) is Some, full is Some)
                },
            }
        }),
        size <= PARTIAL_HASH_SIZE && opt_bytes(partial) is Some ==> (r matches Some(rec) && opt_bytes(
            rec.full,
        ) == opt_bytes(partial) && rec.status == hash_status::FULL),
        size > PARTIAL_HASH_SIZE && opt_bytes(partial) is Some && opt_bytes(computed_full) is Some
            ==> (r matches Some(rec) && opt_bytes(rec.full) == opt_bytes(computed_full) && rec.status
            == hash_status::FULL),
{
    let full = if needs_full_hash(size) {
        computed_full
    } else {
        clone_opt_bytes(&partial)
    };
    if partial.is_none() && full.is_none() {
        return None;
    }
    let status = hash_status_for(partial.is_some(), full.is_some());
    Some(HashRecord { id, partial, full, status })
}

} // verus!

verus! {

proof fn lemma_kept_patterns_shape(pieces: Seq<Seq<char>>)
    ensures
        forall|i: int| 0 <= i < kept_patterns(pieces).len() ==> {
            let p = #[trigger] kept_patterns(pieces)[i];
            p.len() > 0 && trimmed(p) == p
        },
    decreases pieces.len(),
{
    if pieces.len() > 0 {
        lemma_kept_patterns_shape(pieces.drop_last());
        lemma_trimmed_idempotent(pieces.last());
        let r = kept_patterns(pieces.drop_last());
        let k = kept_patterns(pieces);
        assert forall|i: int| 0 <= i < k.len() implies {
            let p = #[trigger] k[i];
            p.len() > 0 && trimmed(p) == p
        } by {
            if i < r.len() {
                assert(k[i] == r[i]);
            }
        }
    }
}

/// Every pattern of a parsed list is non-empty and carries no surrounding
/// whitespace.
pub proof fn parsed_patterns_are_trimmed(s: Option<Seq<char>>)
    ensures
        forall|i: int| 0 <= i < pattern_list(s).len() ==> {
            let p = #[trigger] pattern_list(s)[i];
            p.len() > 0 && trimmed(p) == p
        },
{
    match s {
        Some(x) => lemma_kept_patterns_shape(split_on(x, ',')),
        None => {},
    }
}

/// A file no larger than the partial-hash prefix is covered whole by its
/// partial hash, so that hash is also stored as its full hash and the file
/// counts as fully hashed, whatever full hash was computed; a larger file
/// stores the full hash computed over all of it.
pub proof fn small_files_take_their_partial_hash_as_full(
    size: i64,
    partial: Seq<u8>,
    computed_full: Option<Seq<u8>>,
)
    ensures
        size <= 4096 ==> stored_full_hash(size, Some(partial), computed_full) == Some(partial),
        size <= 4096 ==> hash_status_of(true, stored_full_hash(size, Some(partial), computed_full) is Some)
            == 2,
        size > 4096 ==> stored_full_hash(size, Some(partial), computed_full) == computed_full,
{
}

/// `p` is the stretch `a..b` of `s` and holds no `sep`.
pub open spec fn is_stretch_of(p: Seq<char>, s: Seq<char>, sep: char, a: int, b: int) -> bool {
    &&& 0 <= a <= b <= s.len()
    &&& p == s.subrange(a, b)
    &&& forall|j: int| 0 <= j < p.len() ==> p[j] != sep
}

/// `p` is some stretch of `s` without `sep`.
pub open spec fn is_piece_of(p: Seq<char>, s: Seq<char>, sep: char) -> bool {
    exists|a: int, b: int| is_stretch_of(p, s, sep, a, b)
}

proof fn lemma_split_pieces(s: Seq<char>, sep: char)
    ensures
        split_on(s, sep).len() >= 1,
        exists|a: int| is_stretch_of(split_on(s, sep).last(), s, sep, a, s.len() as int),
        forall|i: int| 0 <= i < split_on(s, sep).len() ==> is_piece_of(#[trigger] split_on(s, sep)[i], s, sep),
    decreases s.len(),
{
    let n = s.len() as int;
    if n == 0 {
        assert(s.subrange(0, 0) =~= Seq::<char>::empty());
        assert(split_on(s, sep)[0] == Seq::<char>::empty());
        assert(split_on(s, sep).last() == Seq::<char>::empty());
        assert(is_stretch_of(split_on(s, sep)[0], s, sep, 0, 0));
        assert(is_stretch_of(split_on(s, sep).last(), s, sep, 0, 0));
    } else {
        let t = s.drop_last();
        let c = s.last();
        lemma_split_pieces(t, sep);
        let r = split_on(t, sep);
        let q = split_on(s, sep);
        // every piece of `t` is a piece of `s`
        assert forall|i: int| 0 <= i < r.len() implies is_piece_of(#[trigger] r[i], s, sep) by {
            let (a, b) = choose|a: int, b: int| is_stretch_of(r[i], t, sep, a, b);
            assert(t.subrange(a, b) =~= s.subrange(a, b));
            assert(is_stretch_of(r[i], s, sep, a, b));
        }
        let a = choose|a: int| is_stretch_of(r.last(), t, sep, a, t.len() as int);
        if c == sep {
            assert(q == r.push(Seq::<char>::empty()));
            assert(s.subrange(n, n) =~= Seq::<char>::empty());
            assert(is_stretch_of(q.last(), s, sep, n, n));
            assert forall|i: int| 0 <= i < q.len() implies is_piece_of(#[trigger] q[i], s, sep) by {
                if i < r.len() {
                    assert(q[i] == r[i]);
                } else {
                    assert(is_stretch_of(q[i], s, sep, n, n));
                }
            }
        } else {
            let last = r.last().push(c);
            assert(q == r.update(r.len() - 1, last));
            assert(t.subrange(a, n - 1).push(c) =~= s.subrange(a, n));
            assert forall|j: int| 0 <= j < last.len() implies last[j] != sep by {
                if j < r.last().len() {
                    assert(last[j] == r.last()[j]);
                }
            }
            assert(is_stretch_of(q.last(), s, sep, a, n));
            assert forall|i: int| 0 <= i < q.len() implies is_piece_of(#[trigger] q[i], s, sep) by {
                if i < r.len() - 1 {
                    assert(q[i] == r[i]);
                } else {
                    assert(is_stretch_of(q[i], s, sep, a, n));
                }
            }
        }
    }
}

/// Trimming a stretch of a text leaves a stretch of that text.
proof fn lemma_trimmed_piece(p: Seq<char>, s: Seq<char>, sep: char)
    requires
        is_piece_of(p, s, sep),
    ensures
        is_piece_of(trimmed(p), s, sep),
{
    let (a, b) = choose|a: int, b: int| is_stretch_of(p, s, sep, a, b);
    lemma_trim_start_shape(p);
    let u = trim_start(p);
    let k = choose|k: int| 0 <= k <= p.len() && u == p.subrange(k, p.len() as int);
    lemma_trim_end_shape(u);
    let k2 = choose|k2: int| 0 <= k2 <= u.len() && trim_end(u) == u.subrange(0, k2);
    let t = trimmed(p);
    assert(t =~= s.subrange(a + k, a + k + k2));
    assert forall|j: int| 0 <= j < t.len() implies t[j] != sep by {
        assert(t[j] == p[k + j]);
    }
    assert(is_stretch_of(t, s, sep, a + k, a + k + k2));
}

proof fn lemma_kept_pieces(pieces: Seq<Seq<char>>, s: Seq<char>, sep: char)
    requires
        forall|i: int| 0 <= i < pieces.len() ==> is_piece_of(#[trigger] pieces[i], s, sep),
    ensures
        forall|i: int| 0 <= i < kept_patterns(pieces).len() ==> is_piece_of(#[trigger] kept_patterns(pieces)[i], s, sep),
    decreases pieces.len(),
{
    if pieces.len() > 0 {
        let d = pieces.drop_last();
        assert forall|i: int| 0 <= i < d.len() implies is_piece_of(#[trigger] d[i], s, sep) by {
            assert(d[i] == pieces[i]);
        }
        lemma_kept_pieces(d, s, sep);
        assert(is_piece_of(pieces[pieces.len() - 1], s, sep));
        lemma_trimmed_piece(pieces.last(), s, sep);
        let r = kept_patterns(d);
        let k = kept_patterns(pieces);
        assert forall|i: int| 0 <= i < k.len() implies is_piece_of(#[trigger] k[i], s, sep) by {
            if i < r.len() {
                assert(k[i] == r[i]);
            }
        }
    }
}

/// Each parsed pattern is a stretch of the list's own text, character for
/// character, between separators: parsing only cuts and trims, it never
/// rewrites what was typed.
pub proof fn parsed_patterns_are_stretches_of_the_list(x: Seq<char>)
    ensures
        forall|i: int| 0 <= i < pattern_list(Some(x)).len() ==> exists|a: int, b: int|
            0 <= a <= b <= x.len() && #[trigger] pattern_list(Some(x))[i] == x.subrange(a, b)
                && !x.subrange(a, b).contains(','),
{
    lemma_split_pieces(x, ',');
    lemma_kept_pieces(split_on(x, ','), x, ',');
    let k = pattern_list(Some(x));
    assert forall|i: int| 0 <= i < k.len() implies exists|a: int, b: int|
        0 <= a <= b <= x.len() && #[trigger] k[i] == x.subrange(a, b) && !x.subrange(a, b).contains(',') by {
        assert(is_piece_of(k[i], x, ','));
        let (a, b) = choose|a: int, b: int| is_stretch_of(k[i], x, ',', a, b);
        assert(!x.subrange(a, b).contains(','));
    }
}

proof fn lemma_split_without_sep(s: Seq<char>, sep: char)
    requires
        !s.contains(sep),
    ensures
        split_on(s, sep) == seq![s],
    decreases s.len(),
{
    if s.len() > 0 {
        let t = s.drop_last();
        assert(!t.contains(sep)) by {
            if t.contains(sep) {
                let j = choose|j: int| 0 <= j < t.len() && t[j] == sep;
                assert(s[j] == sep);
            }
        }
        lemma_split_without_sep(t, sep);
        assert(s[s.len() - 1] != sep);
        assert(t.push(s.last()) =~= s);
        assert(split_on(t, sep).len() == 1);
        assert(split_on(t, sep).last() == t);
        assert(split_on(s, sep) =~= seq![s]);
    } else {
        assert(s =~= Seq::<char>::empty());
    }
}

/// A single pattern typed without commas and without surrounding whitespace
/// is kept exactly as typed.
pub proof fn single_pattern_is_kept_as_typed(x: Seq<char>)
    requires
        x.len() > 0,
        !x.contains(','),
        !is_white_space(x[0]),
        !is_white_space(x.last()),
    ensures
        pattern_list(Some(x)) == seq![x],
{
    lemma_split_without_sep(x, ',');
    lemma_trimmed_fixed(x);
    let pieces = seq![x];
    assert(pieces.drop_last() =~= Seq::<Seq<char>>::empty());
    assert(pieces.last() == x);
    assert(kept_patterns(pieces.drop_last()) == Seq::<Seq<char>>::empty());
    assert(trimmed(x) == x);
    assert(kept_patterns(pieces) =~= seq![x]);
}

/// The fields of `HH:MM:SS` are minutes and seconds below 60, and together
/// they make up the whole duration.
pub proof fn duration_fields_add_up(secs: nat)
    ensures
        (secs % 3600) / 60 < 60,
        secs % 60 < 60,
        (secs / 3600) * 3600 + ((secs % 3600) / 60) * 60 + secs % 60 == secs,
{
    assert((secs / 3600) * 3600 + secs % 3600 == secs) by (nonlinear_arith);
    assert(((secs % 3600) / 60) * 60 + (secs % 3600) % 60 == secs % 3600) by (nonlinear_arith);
    assert((secs % 3600) % 60 == secs % 60) by (nonlinear_arith);
    assert((secs % 3600) / 60 < 60) by (nonlinear_arith);
}

} // verus!

verus! {

/// The rounds of a hashing run: each round takes the next files the index
/// lists without a full hash.
#[derive(Debug, Clone, Copy)]
pub struct HashRun {
    pub total_hashed: usize,
    pub rounds: usize,
}

impl HashRun {
    pub fn new() -> (r: HashRun)
        ensures
            r.total_hashed == 0,
            r.rounds == 0,
    {
        HashRun { total_hashed: 0, rounds: 0 }
    }

    /// A round starts only when the index listed some files; otherwise the
    /// run is over.
    pub fn begin_round(&mut self, fetched: usize) -> (r: bool)
        requires
            old(self).rounds < usize::MAX,
        ensures
            r == (fetched > 0),
            r ==> final(self).rounds == old(self).rounds + 1,
            !r ==> final(self).rounds == old(self).rounds,
            final(self).total_hashed == old(self).total_hashed,
    {
        if fetched == 0 {
            false
        } else {
            self.rounds = self.rounds + 1;
            true
        }
    }

    /// A round ends having stored `hashed` records; the run goes on only if
    /// the round stored some, so that files that cannot be hashed do not make
    /// it repeat forever.
    pub fn end_round(&mut self, hashed: usize) -> (r: bool)
        requires
            old(self).total_hashed + hashed <= usize::MAX,
        ensures
            r == (hashed > 0),
            final(self).total_hashed == old(self).total_hashed + hashed,
            final(self).rounds == old(self).rounds,
    {
        self.total_hashed = self.total_hashed + hashed;
        hashed > 0
    }
}

} // verus!
