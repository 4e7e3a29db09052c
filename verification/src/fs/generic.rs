//! The scanner that walks a volume directory by directory: which files it
//! keeps and how it names them relative to the volume root.
use vstd::prelude::*;
use crate::fs::{FsType, ScanOpts};
use crate::pattern::{filters_accept, passes_filters, string_views};
use crate::text::push_char;

verus! {

pub struct GenericFileSystem;

impl GenericFileSystem {
    pub fn new() -> (r: Self) {
        GenericFileSystem
    }

    pub fn fs_type(&self) -> (r: FsType)
        ensures
            r == FsType::Unknown,
    {
        FsType::Unknown
    }

    /// A directory walk cannot resume from a journal position.
    pub fn supports_incremental(&self) -> (r: bool)
        ensures
            !r,
    {
        false
    }

    /// The last position of a walk: there is none.
    pub fn current_position(&self) -> (r: Option<u64>)
        ensures
            r is None,
    {
        None
    }
}

/// Every `/` turned into `\`.
pub open spec fn backslashed(s: Seq<char>) -> Seq<char> {
    s.map_values(|c: char| if c == '/' { '\\' } else { c })
}

/// Leading `\` characters removed.
pub open spec fn strip_leading_backslashes(s: Seq<char>) -> Seq<char>
    decreases s.len(),
{
    if s.len() > 0 && s[0] == '\\' {
        strip_leading_backslashes(s.drop_first())
    } else {
        s
    }
}

/// How the index writes a path relative to the volume root: with `\`
/// separators and no leading separator.
pub open spec fn index_relative_path(s: Seq<char>) -> Seq<char> {
    strip_leading_backslashes(backslashed(s))
}

/// The relative path the index stores for a file, from the part of its path
/// below the volume root.
pub fn relative_path(below_root: &str) -> (r: String)
    ensures
        r@ == index_relative_path(below_root@),
{
    let ghost b = backslashed(below_root@);
    let n = below_root.unicode_len();
    let mut i: usize = 0;
    assert(b.subrange(0, n as int) =~= b);
    while i < n && (below_root.get_char(i) == '/' || below_root.get_char(i) == '\\')
        invariant
            0 <= i <= n,
            n == below_root@.len(),
            b == backslashed(below_root@),
            strip_leading_backslashes(b) == strip_leading_backslashes(b.subrange(i as int, n as int)),
        decreases n - i,
    {
        assert(b.subrange(i as int, n as int).drop_first() =~= b.subrange(i + 1, n as int));
        i = i + 1;
    }
    assert(strip_leading_backslashes(b) == b.subrange(i as int, n as int));
    let start = i;
    let mut r = String::new();
    while i < n
        invariant
            start <= i <= n,
            n == below_root@.len(),
            b == backslashed(below_root@),
            r@ == b.subrange(start as int, i as int),
        decreases n - i,
    {
        let c = below_root.get_char(i);
        if c == '/' {
            push_char(&mut r, '\\');
        } else {
            push_char(&mut r, c);
        }
        assert(r@ =~= b.subrange(start as int, i + 1));
        i = i + 1;
    }
    r
}

/// A walked file is kept when its name passes the include and exclude
/// patterns.
pub fn accepts_file_name(opts: &ScanOpts, filename: &str) -> (r: bool)
    ensures
        r == passes_filters(string_views(opts.includes@), string_views(opts.excludes@), filename@),
{
    filters_accept(&opts.includes, &opts.excludes, filename)
}

} // verus!

verus! {

proof fn lemma_strip_leading_suffix(s: Seq<char>)
    ensures
        exists|k: int| 0 <= k <= s.len() && strip_leading_backslashes(s) == s.subrange(k, s.len() as int),
        strip_leading_backslashes(s).len() == 0 || strip_leading_backslashes(s)[0] != '\\',
    decreases s.len(),
{
    if s.len() > 0 && s[0] == '\\' {
        lemma_strip_leading_suffix(s.drop_first());
        let k = choose|k: int|
            0 <= k <= s.drop_first().len() && strip_leading_backslashes(s.drop_first())
                == s.drop_first().subrange(k, s.drop_first().len() as int);
        assert(s.drop_first().subrange(k, s.drop_first().len() as int) =~= s.subrange(
            k + 1,
            s.len() as int,
        ));
    } else {
        assert(s.subrange(0, s.len() as int) =~= s);
    }
}

/// A relative path in the index uses only `\` as separator and never starts
/// with one.
pub proof fn relative_paths_are_canonical(s: Seq<char>)
    ensures
        !index_relative_path(s).contains('/'),
        index_relative_path(s).len() == 0 || index_relative_path(s)[0] != '\\',
{
    let b = backslashed(s);
    lemma_strip_leading_suffix(b);
    let k = choose|k: int| 0 <= k <= b.len() && strip_leading_backslashes(b) == b.subrange(k, b.len() as int);
    let r = index_relative_path(s);
    assert forall|i: int| 0 <= i < r.len() implies r[i] != '/' by {
        assert(r[i] == b[i + k]);
    }
}

} // verus!
