//! File systems and the entries a scan produces: which kind of file system a
//! volume has, which scanner serves it, and how a found file is described.
use vstd::prelude::*;
use crate::text::{lowercase, push_char, str_eq, str_to_lowercase, str_to_uppercase, uppercase};

pub mod generic;
pub mod media;
pub mod ntfs;

use generic::GenericFileSystem;
use ntfs::NtfsFileSystem;

verus! {

#[derive(Debug, Clone, Copy, PartialEq, Eq, Structural)]
pub enum FsType {
    Ntfs,
    Fat32,
    ExFat,
    Unknown,
}

/// File-system specific identity of a file.
#[derive(Debug, Clone)]
pub enum FsSpecificData {
    Ntfs { frn: u64, parent_frn: u64 },
}

/// One file found by a scan.
#[derive(Debug, Clone)]
pub struct FileEntry {
    pub filename: String,
    pub path_rel: String,
    pub extension: Option<String>,
    pub size: i64,
    pub created: Option<i64>,
    pub modified: Option<i64>,
    pub accessed: Option<i64>,
    pub attributes: Option<i64>,
    pub fs_specific: Option<FsSpecificData>,
}

/// What a scan skips and which names it keeps.
#[derive(Debug, Clone)]
pub struct ScanOpts {
    pub skip_hidden: bool,
    pub skip_system: bool,
    pub includes: Vec<String>,
    pub excludes: Vec<String>,
}

/// The file system a volume reports, from the name the volume gives for it
/// (`None` where the name could not be read): compared in upper case.
pub open spec fn fs_type_of_name(name: Option<Seq<char>>) -> FsType {
    match name {
        None => FsType::Unknown,
        Some(n) => {
            let u = uppercase(n);
            if u == "NTFS"@ {
                FsType::Ntfs
            } else if u == "FAT32"@ {
                FsType::Fat32
            } else if u == "EXFAT"@ {
                FsType::ExFat
            } else {
                FsType::Unknown
            }
        },
    }
}

pub fn detect_volume_type(fs_name: Option<&str>) -> (r: FsType)
    ensures
        r == fs_type_of_name(
            match fs_name {
                Some(n) => Some(n@),
                None => None,
            },
        ),
{
    match fs_name {
        None => FsType::Unknown,
        Some(n) => {
            let upper = str_to_uppercase(n);
            let u = upper.as_str();
            if str_eq(u, "NTFS") {
                FsType::Ntfs
            } else if str_eq(u, "FAT32") {
                FsType::Fat32
            } else if str_eq(u, "EXFAT") {
                FsType::ExFat
            } else {
                FsType::Unknown
            }
        },
    }
}

/// The scanner chosen for a volume.
pub enum DetectedFs {
    Ntfs(NtfsFileSystem),
    Generic(GenericFileSystem),
}

impl DetectedFs {
    pub open spec fn spec_fs_type(&self) -> FsType {
        match self {
            DetectedFs::Ntfs(_) => FsType::Ntfs,
            DetectedFs::Generic(_) => FsType::Unknown,
        }
    }

    pub fn fs_type(&self) -> (r: FsType)
        ensures
            r == self.spec_fs_type(),
    {
        match self {
            DetectedFs::Ntfs(f) => f.fs_type(),
            DetectedFs::Generic(f) => f.fs_type(),
        }
    }

    pub fn supports_incremental(&self) -> (r: bool)
        ensures
            r == (self is Ntfs),
    {
        match self {
            DetectedFs::Ntfs(f) => f.supports_incremental(),
            DetectedFs::Generic(f) => f.supports_incremental(),
        }
    }
}

/// NTFS volumes are read through their master file table; every other volume
/// is walked directory by directory.
pub fn detect_fs(fs_type: FsType) -> (r: DetectedFs)
    ensures
        (r is Ntfs) <==> (fs_type == FsType::Ntfs),
{
    match fs_type {
        FsType::Ntfs => DetectedFs::Ntfs(NtfsFileSystem::new()),
        _ => DetectedFs::Generic(GenericFileSystem::new()),
    }
}

/// Index of the last `.` of a name, or -1.
pub open spec fn last_dot(s: Seq<char>) -> int
    decreases s.len(),
{
    if s.len() == 0 {
        -1
    } else if s.last() == '.' {
        s.len() - 1
    } else {
        last_dot(s.drop_last())
    }
}

/// The extension of a single path component, as `Path::extension` gives it:
/// what follows the last `.`, unless there is none, the name is `..`, or the
/// only `.` starts the name.
pub open spec fn extension_of(name: Seq<char>) -> Option<Seq<char>> {
    if name == ".."@ {
        None
    } else {
        let k = last_dot(name);
        if k <= 0 {
            None
        } else {
            Some(name.subrange(k + 1, name.len() as int))
        }
    }
}

/// The extension of a file name in lower case, as the index stores it.
pub open spec fn lower_extension(name: Seq<char>) -> Option<Seq<char>> {
    match extension_of(name) {
        Some(e) => Some(lowercase(e)),
        None => None,
    }
}

pub open spec fn opt_view(o: Option<String>) -> Option<Seq<char>> {
    match o {
        Some(s) => Some(s@),
        None => None,
    }
}


/// The lower-cased extension of a file name (a single path component).
pub fn file_extension(name: &str) -> (r: Option<String>)
    requires
        !name@.contains('/'),
    ensures
        opt_view(r) == lower_extension(name@),
{
    let n = name.unicode_len();
    if n == 2 && name.get_char(0) == '.' && name.get_char(1) == '.' {
        assert(name@ =~= ".."@) by {
            reveal_strlit("..");
        }
        return None;
    }
    proof {
        if name@ == ".."@ {
            reveal_strlit("..");
            assert(name@[0] == '.' && name@[1] == '.');
        }
    }
    let mut j: usize = n;
    assert(name@.subrange(0, n as int) =~= name@);
    while j > 0 && name.get_char(j - 1) != '.'
        invariant
            0 <= j <= n,
            n == name@.len(),
            last_dot(name@) == last_dot(name@.subrange(0, j as int)),
        decreases j,
    {
        assert(name@.subrange(0, j as int).drop_last() =~= name@.subrange(0, j - 1));
        j = j - 1;
    }
    proof {
        if j > 0 {
            let t = name@.subrange(0, j as int);
            assert(t.last() == '.');
            assert(last_dot(t) == j - 1);
        } else {
            assert(name@.subrange(0, 0) =~= Seq::<char>::empty());
        }
    }
    if j <= 1 {
        None
    } else {
        let e = name.substring_char(j, n);
        Some(str_to_lowercase(e))
    }
}

impl FileEntry {
    /// A file found by walking directories: no attributes and no
    /// file-system identity are recorded.
    pub fn from_walk(
        filename: String,
        path_rel: String,
        size: i64,
        created: Option<i64>,
        modified: Option<i64>,
        accessed: Option<i64>,
    ) -> (r: FileEntry)
        requires
            !filename@.contains('/'),
        ensures
            r.filename@ == filename@,
            r.path_rel@ == path_rel@,
            opt_view(r.extension) == lower_extension(filename@),
            r.size == size,
            r.created == created,
            r.modified == modified,
            r.accessed == accessed,
            r.attributes is None,
            r.fs_specific is None,
    {
        let extension = file_extension(filename.as_str());
        FileEntry {
            filename,
            path_rel,
            extension,
            size,
            created,
            modified,
            accessed,
            attributes: None,
            fs_specific: None,
        }
    }

    /// A file read from the master file table: its relative path is left
    /// empty, its times and attributes come from the table, and it carries its
    /// record number and its parent's.
    pub fn from_mft(
        filename: String,
        size: i64,
        created: i64,
        modified: i64,
        accessed: i64,
        attributes: i64,
        frn: u64,
        parent_frn: u64,
    ) -> (r: FileEntry)
        requires
            !filename@.contains('/'),
        ensures
            r.filename@ == filename@,
            r.path_rel@ == Seq::<char>::empty(),
            opt_view(r.extension) == lower_extension(filename@),
            r.size == size,
            r.created == Some(created),
            r.modified == Some(modified),
            r.accessed == Some(accessed),
            r.attributes == Some(attributes),
            r.fs_specific == Some(FsSpecificData::Ntfs { frn, parent_frn }),
    {
        let extension = file_extension(filename.as_str());
        FileEntry {
            filename,
            path_rel: String::new(),
            extension,
            size,
            created: Some(created),
            modified: Some(modified),
            accessed: Some(accessed),
            attributes: Some(attributes),
            fs_specific: Some(FsSpecificData::Ntfs { frn, parent_frn }),
        }
    }
}

} // verus!
