//! The scanner for NTFS volumes: when the master file table can be read, which
//! of its records become index entries, and when an incremental scan must
//! fall back to a full one.
use vstd::prelude::*;
use crate::fs::{FsType, ScanOpts, lower_extension, file_extension};
use crate::fs::media::MediaType;
use crate::pattern::{filters_accept, passes_filters, string_views};

verus! {

pub struct NtfsFileSystem;

/// How a volume is read.
#[derive(Debug, Clone, Copy, PartialEq, Eq, Structural)]
pub enum ScanMethod {
    /// Walk the directories.
    Walk,
    /// Read the master file table, falling back to a walk if that fails.
    MasterFileTable,
}

pub const FILE_ATTRIBUTE_HIDDEN: u32 = 0x02;
pub const FILE_ATTRIBUTE_SYSTEM: u32 = 0x04;

impl NtfsFileSystem {
    pub fn new() -> (r: Self) {
        NtfsFileSystem
    }

    pub fn fs_type(&self) -> (r: FsType)
        ensures
            r == FsType::Ntfs,
    {
        FsType::Ntfs
    }

    /// NTFS keeps a change journal, so scans can be incremental.
    pub fn supports_incremental(&self) -> (r: bool)
        ensures
            r,
    {
        true
    }
}

/// `subst` aliases and virtual disks have no readable master file table of
/// their own; they are walked. Every other volume is read through its table.
pub open spec fn scan_method_for(is_subst: bool, media: MediaType) -> ScanMethod {
    if is_subst || media == MediaType::Vhd {
        ScanMethod::Walk
    } else {
        ScanMethod::MasterFileTable
    }
}

pub fn choose_scan_method(is_subst: bool, media: MediaType) -> (r: ScanMethod)
    ensures
        r == scan_method_for(is_subst, media),
{
    if is_subst {
        return ScanMethod::Walk;
    }
    match media {
        MediaType::Vhd => ScanMethod::Walk,
        MediaType::Hdd | MediaType::Ssd | MediaType::Usb | MediaType::Unknown => ScanMethod::MasterFileTable,
    }
}

/// An incremental scan can use the journal only when both the last stored
/// position and the current one are known; otherwise the volume is scanned in
/// full.
pub fn incremental_needs_full_scan(since: Option<u64>, current: Option<u64>) -> (r: bool)
    ensures
        r == !(since is Some && current is Some),
{
    match (since, current) {
        (Some(_), Some(_)) => false,
        _ => true,
    }
}

/// Whether an attribute flag is set in the attribute word of a record.
pub open spec fn has_attribute(attributes: i64, flag: u32) -> bool {
    (attributes as u32) & flag != 0
}

/// The filters applied to a record of the table: the include and exclude
/// patterns are matched against the lower-cased extension, and a name without
/// extension passes them.
pub open spec fn mft_name_passes(opts: ScanOpts, filename: Seq<char>) -> bool {
    match lower_extension(filename) {
        Some(e) => passes_filters(string_views(opts.includes@), string_views(opts.excludes@), e),
        None => true,
    }
}

/// A record of the table becomes an index entry when it is an allocated file
/// (not a directory), is not a system or hidden file that the options skip,
/// and its extension passes the filters.
pub open spec fn mft_record_kept(
    opts: ScanOpts,
    is_allocated: bool,
    is_dir: bool,
    attributes: i64,
    filename: Seq<char>,
) -> bool {
    &&& is_allocated
    &&& !is_dir
    &&& !(opts.skip_system && has_attribute(attributes, FILE_ATTRIBUTE_SYSTEM))
    &&& !(opts.skip_hidden && has_attribute(attributes, FILE_ATTRIBUTE_HIDDEN))
    &&& mft_name_passes(opts, filename)
}

/// Skipping hidden files drops every hidden record (attribute bit 0x02) and
/// skipping system files drops every system record (bit 0x04), each whatever
/// the other option says; when neither bit is set, or neither option is on,
/// the attributes do not decide whether a record is kept.
pub proof fn skipped_attributes_drop_records(
    opts: ScanOpts,
    is_allocated: bool,
    is_dir: bool,
    attributes: i64,
    filename: Seq<char>,
)
    ensures
        opts.skip_hidden && (attributes as u32) & 0x02u32 != 0 ==> !mft_record_kept(
            opts,
            is_allocated,
            is_dir,
            attributes,
            filename,
        ),
        opts.skip_system && (attributes as u32) & 0x04u32 != 0 ==> !mft_record_kept(
            opts,
            is_allocated,
            is_dir,
            attributes,
            filename,
        ),
        ((attributes as u32) & 0x02u32 == 0 || !opts.skip_hidden) && ((attributes as u32) & 0x04u32
            == 0 || !opts.skip_system) ==> mft_record_kept(opts, is_allocated, is_dir, attributes, filename)
            == mft_record_kept(opts, is_allocated, is_dir, 0, filename),
{
    assert((0i64 as u32) & 0x02u32 == 0 && (0i64 as u32) & 0x04u32 == 0) by (bit_vector);
}

pub fn keep_mft_record(
    opts: &ScanOpts,
    is_allocated: bool,
    is_dir: bool,
    attributes: i64,
    filename: &str,
) -> (r: bool)
    requires
        !filename@.contains('/'),
    ensures
        r == mft_record_kept(*opts, is_allocated, is_dir, attributes, filename@),
        opts.skip_hidden && (attributes as u32) & 0x02u32 != 0 ==> !r,
        opts.skip_system && (attributes as u32) & 0x04u32 != 0 ==> !r,
{
    if !is_allocated || is_dir {
        return false;
    }
    if opts.skip_system && ((attributes as u32) & FILE_ATTRIBUTE_SYSTEM) != 0 {
        return false;
    }
    if opts.skip_hidden && ((attributes as u32) & FILE_ATTRIBUTE_HIDDEN) != 0 {
        return false;
    }
    match file_extension(filename) {
        Some(e) => filters_accept(&opts.includes, &opts.excludes, e.as_str()),
        None => true,
    }
}

} // verus!
