use getdub::config::{hash_status, hash_type};
use getdub::fdb::{
    decide_upsert, hex, integrity_passed, members_by_hash_sql, BatchCounts, DupGroup, FileMeta,
    FileRow, IgnoreReason, UpsertAction,
};
use getdub::fs::generic::{accepts_file_name, relative_path, GenericFileSystem};
use getdub::fs::media::MediaType;
use getdub::fs::ntfs::{choose_scan_method, incremental_needs_full_scan, keep_mft_record, NtfsFileSystem, ScanMethod};
use getdub::fs::{FileEntry, FsSpecificData, FsType, ScanOpts};
use getdub::idxer::{
    full_hash_method, full_hash_of, hash_progress_due, hash_record, hash_status_for,
    needs_full_hash, partial_hash_of, scan_progress_due, FullHashMethod, Indexer, ScanTally,
    StreamHasher,
};
use getdub::idxer::HashRun;
use getdub::pattern::{filters_accept, matches_any};
use getdub::testing::{sub_dir_name, test_files};

fn strings(v: &[&str]) -> Vec<String> {
    v.iter().map(|s| s.to_string()).collect()
}

#[test]
fn hex_text() {
    assert_eq!(hex(&[0x00, 0xab, 0x10, 0xff]), "00ab10ff");
    assert_eq!(hex(&[]), "");
    let bytes: Vec<u8> = (0..=255).collect();
    let expected: String = bytes.iter().map(|b| format!("{:02x}", b)).collect();
    assert_eq!(hex(&bytes), expected);
}

#[test]
fn ignore_reasons() {
    assert_eq!(IgnoreReason::Permission.to_string(), "permission");
    assert_eq!(IgnoreReason::IoError.to_string(), "ioerror");
    assert_eq!(IgnoreReason::SymlinkBroken.to_string(), "symlink_broken");
    assert_eq!(IgnoreReason::System.to_string(), "system");
    assert_eq!(IgnoreReason::Hidden.to_string(), "hidden");
}

#[test]
fn upsert_decisions() {
    assert_eq!(decide_upsert(None, Some(5)), UpsertAction::Insert);
    assert_eq!(decide_upsert(Some((7, Some(5))), Some(5)), UpsertAction::Touch(7));
    assert_eq!(decide_upsert(Some((7, Some(5))), Some(6)), UpsertAction::Rewrite(7));
    assert_eq!(decide_upsert(Some((7, None)), Some(6)), UpsertAction::Rewrite(7));
    assert_eq!(decide_upsert(Some((7, None)), None), UpsertAction::Rewrite(7));
    assert_eq!(decide_upsert(Some((7, Some(0))), None), UpsertAction::Touch(7));
}

#[test]
fn batch_counting() {
    let mut c = BatchCounts::new();
    c.record(UpsertAction::Insert);
    c.record(UpsertAction::Touch(1));
    c.record(UpsertAction::Rewrite(2));
    assert_eq!((c.inserted, c.updated), (1, 2));
    assert!(!c.is_full());
    let full = BatchCounts { inserted: 600, updated: 400 };
    assert!(full.is_full());
    let almost = BatchCounts { inserted: 600, updated: 399 };
    assert!(!almost.is_full());
}

#[test]
fn scan_tally() {
    let mut t = ScanTally::new();
    t.file_stored();
    t.file_stored();
    t.batch_committed(&BatchCounts { inserted: 2, updated: 0 });
    assert_eq!((t.scanned, t.added), (2, 2));
}

#[test]
fn duplicate_groups() {
    let g = DupGroup::full(&[0xde, 0xad], 3, 300, vec![(1, "C:\\a".to_string())]);
    assert_eq!(g.hash_type, hash_type::FULL);
    assert_eq!(g.hash_hex, "dead");
    assert_eq!(g.file_count, 3);
    assert_eq!(g.total_size, 300);
    assert_eq!(g.members.len(), 1);
    let p = DupGroup::partial(4096, &[1, 2], 5, vec![]);
    assert_eq!(p.hash_type, hash_type::PARTIAL);
    assert_eq!(p.hash_hex, "0102");
    assert_eq!(p.total_size, 20480);
}

#[test]
fn exported_rows() {
    let r = FileRow::from_columns(
        4, "C:\\".into(), "a\\b.txt".into(), "b.txt".into(), Some("txt".into()), 10, Some(99),
        Some(vec![0x0f, 0xa0]), None, hash_status::PARTIAL, 0,
    );
    assert_eq!(r.partial_hash.as_deref(), Some("0fa0"));
    assert_eq!(r.full_hash, None);
    assert_eq!(r.id, 4);
    assert_eq!(r.hash_status, 1);
}

#[test]
fn member_queries() {
    assert_eq!(
        members_by_hash_sql(hash_type::FULL),
        "SELECT f.id, v.path || f.path_rel FROM files f JOIN volumes v ON v.id = f.volume_id WHERE f.full_hash = ?1 AND f.is_deleted = 0 ORDER BY f.path_rel"
    );
    assert!(members_by_hash_sql(hash_type::PARTIAL).contains("WHERE f.partial_hash = ?1"));
    assert!(integrity_passed("ok"));
    assert!(!integrity_passed("OK"));
    assert!(!integrity_passed("*** in database main ***"));
}

#[test]
fn metadata_from_entry() {
    let e = FileEntry::from_walk("Doc.TXT".into(), "dir\\Doc.TXT".into(), 12, Some(1), Some(2), None);
    assert_eq!(e.extension.as_deref(), Some("txt"));
    let m = FileMeta::from_entry(&e);
    assert_eq!(m.filename, "Doc.TXT");
    assert_eq!(m.path_rel, "dir\\Doc.TXT");
    assert_eq!(m.extension.as_deref(), Some("txt"));
    assert_eq!((m.size, m.created, m.modified, m.accessed, m.attributes, m.usn), (12, Some(1), Some(2), None, None, None));
    let n = FileEntry::from_mft("x.Bin".into(), 7, 1, 2, 3, 0x20, 42, 5);
    assert_eq!(n.path_rel, "");
    assert_eq!(n.extension.as_deref(), Some("bin"));
    assert_eq!(n.attributes, Some(0x20));
    match n.fs_specific {
        Some(FsSpecificData::Ntfs { frn, parent_frn }) => assert_eq!((frn, parent_frn), (42, 5)),
        None => panic!("missing record numbers"),
    }
}

#[test]
fn relative_paths() {
    assert_eq!(relative_path("/a/b/c.txt"), "a\\b\\c.txt");
    assert_eq!(relative_path("\\\\x"), "x");
    assert_eq!(relative_path("x/"), "x\\");
    assert_eq!(relative_path(""), "");
    for s in ["/a/b", "\\/\\c", "plain"] {
        let r = relative_path(s);
        assert!(!r.contains('/'));
        assert!(!r.starts_with('\\'));
    }
}

#[test]
fn name_patterns() {
    let inc = strings(&["*.txt", "[", "d?g"]);
    assert!(matches_any(&inc, "a.txt"));
    assert!(matches_any(&inc, "dog"));
    assert!(!matches_any(&inc, "a.log"));
    assert!(!matches_any(&strings(&["["]), "["));
    assert!(!matches_any(&Vec::new(), "a"));
    assert!(filters_accept(&Vec::new(), &Vec::new(), "anything"));
    assert!(filters_accept(&strings(&["*.txt"]), &strings(&["secret*"]), "notes.txt"));
    assert!(!filters_accept(&strings(&["*.txt"]), &strings(&["secret*"]), "secret.txt"));
    assert!(!filters_accept(&strings(&["*.txt"]), &Vec::new(), "a.jpg"));
}

#[test]
fn walk_filters() {
    let opts = ScanOpts { skip_hidden: true, skip_system: true, includes: strings(&["*.jpg"]), excludes: strings(&["tmp*"]) };
    assert!(accepts_file_name(&opts, "a.jpg"));
    assert!(!accepts_file_name(&opts, "tmp.jpg"));
    assert!(!accepts_file_name(&opts, "a.png"));
}

#[test]
fn mft_records() {
    let opts = ScanOpts { skip_hidden: true, skip_system: true, includes: strings(&["jpg"]), excludes: Vec::new() };
    assert!(keep_mft_record(&opts, true, false, 0x20, "a.JPG"));
    assert!(keep_mft_record(&opts, true, false, 0x20, "README"));
    assert!(!keep_mft_record(&opts, true, false, 0x20, "a.png"));
    assert!(!keep_mft_record(&opts, true, false, 0x02, "a.jpg"));
    assert!(!keep_mft_record(&opts, true, false, 0x04, "a.jpg"));
    assert!(!keep_mft_record(&opts, false, false, 0, "a.jpg"));
    assert!(!keep_mft_record(&opts, true, true, 0, "a.jpg"));
    let lax = ScanOpts { skip_hidden: false, skip_system: false, includes: Vec::new(), excludes: strings(&["log"]) };
    assert!(keep_mft_record(&lax, true, false, 0x06, "a.jpg"));
    assert!(!keep_mft_record(&lax, true, false, 0, "debug.LOG"));
}

#[test]
fn scan_methods() {
    assert_eq!(choose_scan_method(true, MediaType::Ssd), ScanMethod::Walk);
    assert_eq!(choose_scan_method(false, MediaType::Vhd), ScanMethod::Walk);
    for m in [MediaType::Hdd, MediaType::Ssd, MediaType::Usb, MediaType::Unknown] {
        assert_eq!(choose_scan_method(false, m), ScanMethod::MasterFileTable);
    }
    assert!(!incremental_needs_full_scan(Some(1), Some(9)));
    assert!(incremental_needs_full_scan(None, Some(9)));
    assert!(incremental_needs_full_scan(Some(1), None));
    let n = NtfsFileSystem::new();
    assert_eq!(n.fs_type(), FsType::Ntfs);
    assert!(n.supports_incremental());
    let g = GenericFileSystem::new();
    assert_eq!(g.fs_type(), FsType::Unknown);
    assert!(!g.supports_incremental());
    assert_eq!(g.current_position(), None);
}

#[test]
fn indexer_patterns() {
    let ix = Indexer::new(Some(" *.txt, ,*.jpg,"), None, true, false, true);
    let o = ix.scan_opts();
    assert_eq!(o.includes, strings(&["*.txt", "*.jpg"]));
    assert!(o.excludes.is_empty());
    assert!(o.skip_hidden);
    assert!(!o.skip_system);
    assert!(ix.compute_hashes());
    let e = Indexer::new(Some(""), Some("a,,b , c\u{a0}"), false, true, false);
    let o = e.scan_opts();
    assert!(o.includes.is_empty());
    assert_eq!(o.excludes, strings(&["a", "b", "c"]));
}

#[test]
fn progress_cadence() {
    assert!(scan_progress_due(99, 1000));
    assert!(!scan_progress_due(100, 1000));
    assert!(scan_progress_due(4, 5));
    assert!(hash_progress_due(100, 150));
    assert!(hash_progress_due(150, 150));
    assert!(!hash_progress_due(149, 150));
}

#[test]
fn partial_hashes() {
    assert_eq!(partial_hash_of(&[]), None);
    let data = b"hello world";
    let expected = xxhash_rust::xxh3::xxh3_64(data).to_le_bytes().to_vec();
    assert_eq!(partial_hash_of(data), Some(expected));
    assert_ne!(partial_hash_of(b"a"), partial_hash_of(b"b"));
}

#[test]
fn full_hashes() {
    let data: Vec<u8> = (0..5000u32).map(|i| (i % 251) as u8).collect();
    let one = full_hash_of(&data);
    assert_eq!(one, blake3::hash(&data).as_bytes().to_vec());
    assert_eq!(one.len(), 32);
    let mut s = StreamHasher::new();
    for chunk in data.chunks(777) {
        s.update(chunk);
    }
    assert_eq!(s.finalize(), one);
    assert_ne!(full_hash_of(b"x"), b"x".to_vec());
}

#[test]
fn hash_methods_and_status() {
    assert_eq!(full_hash_method(0), FullHashMethod::Empty);
    assert_eq!(full_hash_method(1), FullHashMethod::Mapped);
    assert_eq!(full_hash_method(64 * 1024 * 1024 - 1), FullHashMethod::Mapped);
    assert_eq!(full_hash_method(64 * 1024 * 1024), FullHashMethod::Streamed);
    assert!(!needs_full_hash(4096));
    assert!(needs_full_hash(4097));
    assert_eq!(hash_status_for(true, true), hash_status::FULL);
    assert_eq!(hash_status_for(true, false), hash_status::PARTIAL);
    assert_eq!(hash_status_for(false, true), hash_status::NONE);
    assert_eq!(hash_status_for(false, false), hash_status::NONE);
}

#[test]
fn hash_records() {
    assert!(hash_record(1, 10, None, None).is_none());
    let small = hash_record(2, 100, Some(vec![1; 8]), Some(vec![9; 32])).unwrap();
    assert_eq!(small.full, Some(vec![1; 8]));
    assert_eq!(small.status, hash_status::FULL);
    let big = hash_record(3, 10_000, Some(vec![1; 8]), Some(vec![9; 32])).unwrap();
    assert_eq!(big.full, Some(vec![9; 32]));
    assert_eq!(big.status, hash_status::FULL);
    let big_unreadable = hash_record(4, 10_000, Some(vec![1; 8]), None).unwrap();
    assert_eq!(big_unreadable.status, hash_status::PARTIAL);
    let only_full = hash_record(5, 10_000, None, Some(vec![9; 32])).unwrap();
    assert_eq!(only_full.status, hash_status::NONE);
    assert!(hash_record(6, 100, None, Some(vec![9; 32])).is_none());
}

#[test]
fn sample_tree() {
    let files = test_files();
    assert_eq!(files.len(), 5);
    assert_eq!(sub_dir_name(), "subfolder");
    let copies: Vec<_> = files.iter().filter(|f| f.content == "Контент для поиска дубликатов").collect();
    assert_eq!(copies.len(), 3);
    assert_eq!(files[3].dir, Some("subfolder"));
    assert_eq!(files[3].name, "another_copy.txt");
    assert_eq!(files[4].name, "debug.log");
}

#[test]
fn hashing_rounds() {
    let mut run = HashRun::new();
    assert!(run.begin_round(3));
    assert!(run.end_round(2));
    assert!(run.begin_round(1));
    assert!(!run.end_round(0));
    assert_eq!((run.rounds, run.total_hashed), (2, 2));
    let mut idle = HashRun::new();
    assert!(!idle.begin_round(0));
    assert_eq!(idle.rounds, 0);
}

#[test]
fn scan_steps() {
    let mut t = ScanTally::new();
    let full = BatchCounts { inserted: 700, updated: 300 };
    let s = t.after_store(99, 500, &full, true);
    assert!(s.show_progress && s.commit);
    assert_eq!((t.scanned, t.added), (1, 700));
    let s = t.after_store(5, 500, &full, false);
    assert!(!s.show_progress && !s.commit);
    assert_eq!((t.scanned, t.added), (2, 700));
    let small = BatchCounts { inserted: 1, updated: 0 };
    let s = t.after_store(499, 500, &small, true);
    assert!(s.show_progress && !s.commit);
    assert_eq!((t.scanned, t.added), (3, 700));
}
