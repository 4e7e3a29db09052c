use getdub::config::{is_skipped_dir, sqlite_pragma_init};
use getdub::fs::media::{
    detect_media_type, dos_drive_name, drive_roots_in_mask, get_volume_path, is_subst_drive,
    MediaType,
};
use getdub::fs::{detect_fs, detect_volume_type, file_extension, FsType};
use getdub::idxer::{format_duration, normalize_drive_root, volume_type_for};
use getdub::logger::{log_level_filter, LogLevel};

#[test]
fn drive_letter_becomes_root() {
    assert_eq!(normalize_drive_root("c"), "C:\\");
    assert_eq!(normalize_drive_root("D"), "D:\\");
    assert_eq!(normalize_drive_root(" e: "), "E:\\");
    assert_eq!(normalize_drive_root("1:"), "1:\\");
}

#[test]
fn other_roots_are_only_trimmed() {
    assert_eq!(normalize_drive_root("C:\\"), "C:\\");
    assert_eq!(normalize_drive_root("  /mnt/data \t"), "/mnt/data");
    assert_eq!(normalize_drive_root("1"), "1");
    assert_eq!(normalize_drive_root("é"), "é");
    assert_eq!(normalize_drive_root("é:"), "é:");
    assert_eq!(normalize_drive_root("\u{3000}x\u{a0}"), "X:\\");
    assert_eq!(normalize_drive_root("\u{3000}ab\u{a0}"), "ab");
    assert_eq!(normalize_drive_root(""), "");
}

#[test]
fn normalizing_twice_changes_nothing() {
    for s in ["c", " d: ", "C:\\", "/mnt/x", "  ", "z:"] {
        let once = normalize_drive_root(s);
        assert_eq!(normalize_drive_root(&once), once);
    }
}

#[test]
fn volume_paths() {
    assert_eq!(get_volume_path("C:\\"), "\\\\.\\C:");
    assert_eq!(get_volume_path("C:"), "\\\\.\\C:");
    assert_eq!(get_volume_path("D:\\\\"), "\\\\.\\D:");
    assert_eq!(get_volume_path("/mnt/x"), "/mnt/x");
    assert_eq!(get_volume_path("\\\\server\\share\\"), "\\\\server\\share");
    assert_eq!(get_volume_path("é:"), "é:");
}

#[test]
fn volume_path_is_stable_on_examples() {
    for s in ["C:\\", "E:", "/data/", "\\\\server\\share\\\\"] {
        let p = get_volume_path(s);
        assert!(!p.ends_with('\\'));
        assert_eq!(get_volume_path(&p), p);
    }
}

#[test]
fn dos_drive_names() {
    assert_eq!(dos_drive_name("C:\\"), "C:");
    assert_eq!(dos_drive_name("C"), "C:");
    assert_eq!(dos_drive_name("C::\\\\"), "C:");
}

#[test]
fn subst_drives() {
    assert!(is_subst_drive(Some("\\??\\C:\\work\\x")));
    assert!(!is_subst_drive(Some("\\Device\\HarddiskVolume3")));
    assert!(!is_subst_drive(Some("\\\\Device\\\\HarddiskVolume3\\")));
    assert!(is_subst_drive(Some("a\\b\\c")));
    assert!(!is_subst_drive(None));
}

#[test]
fn media_types() {
    assert_eq!(detect_media_type(Some(7), Some(true)), MediaType::Usb);
    assert_eq!(detect_media_type(Some(14), None), MediaType::Vhd);
    assert_eq!(detect_media_type(Some(15), Some(false)), MediaType::Vhd);
    assert_eq!(detect_media_type(Some(11), Some(true)), MediaType::Hdd);
    assert_eq!(detect_media_type(None, Some(false)), MediaType::Ssd);
    assert_eq!(detect_media_type(None, None), MediaType::Unknown);
}

#[test]
fn drive_masks() {
    assert_eq!(drive_roots_in_mask(0b101), vec!["A:\\".to_string(), "C:\\".to_string()]);
    assert_eq!(drive_roots_in_mask(1 << 25), vec!["Z:\\".to_string()]);
    assert!(drive_roots_in_mask(1 << 26).is_empty());
    assert_eq!(drive_roots_in_mask(u32::MAX).len(), 26);
}

#[test]
fn skipped_directories_ignore_case() {
    assert!(is_skipped_dir("$RECYCLE.BIN"));
    assert!(is_skipped_dir("System Volume Information"));
    assert!(is_skipped_dir("$Windows.~BT"));
    assert!(is_skipped_dir("$windows.~ws"));
    assert!(!is_skipped_dir("Windows"));
    assert!(!is_skipped_dir("$recycle.bin2"));
}

#[test]
fn pragma_text() {
    assert_eq!(
        sqlite_pragma_init(),
        "PRAGMA journal_mode       = WAL; PRAGMA synchronous        = NORMAL; PRAGMA temp_store         = MEMORY; PRAGMA mmap_size          = 268435456; PRAGMA cache_size         = -2000000; PRAGMA busy_timeout       = 5000; PRAGMA foreign_keys       = ON; PRAGMA recursive_triggers = ON;"
    );
}

#[test]
fn file_system_names() {
    assert_eq!(detect_volume_type(Some("ntfs")), FsType::Ntfs);
    assert_eq!(detect_volume_type(Some("NTFS")), FsType::Ntfs);
    assert_eq!(detect_volume_type(Some("Fat32")), FsType::Fat32);
    assert_eq!(detect_volume_type(Some("exFAT")), FsType::ExFat);
    assert_eq!(detect_volume_type(Some("ext4")), FsType::Unknown);
    assert_eq!(detect_volume_type(None), FsType::Unknown);
}

#[test]
fn scanner_choice() {
    let ntfs = detect_fs(FsType::Ntfs);
    assert_eq!(ntfs.fs_type(), FsType::Ntfs);
    assert!(ntfs.supports_incremental());
    for t in [FsType::Fat32, FsType::ExFat, FsType::Unknown] {
        let g = detect_fs(t);
        assert_eq!(g.fs_type(), FsType::Unknown);
        assert!(!g.supports_incremental());
    }
}

#[test]
fn volume_codes() {
    assert_eq!(volume_type_for(FsType::Ntfs), 1);
    assert_eq!(volume_type_for(FsType::Fat32), 2);
    assert_eq!(volume_type_for(FsType::ExFat), 3);
    assert_eq!(volume_type_for(FsType::Unknown), 0);
}

#[test]
fn extensions() {
    assert_eq!(file_extension("Photo.JPG"), Some("jpg".to_string()));
    assert_eq!(file_extension("archive.tar.gz"), Some("gz".to_string()));
    assert_eq!(file_extension(".bashrc"), None);
    assert_eq!(file_extension("noext"), None);
    assert_eq!(file_extension("a."), Some(String::new()));
    assert_eq!(file_extension(".."), None);
    assert_eq!(file_extension("..x"), Some("x".to_string()));
    assert_eq!(file_extension(""), None);
    for name in ["Photo.JPG", ".bashrc", "a.", "..", "x.Tar.GZ", "noext"] {
        let expected = std::path::Path::new(name)
            .extension()
            .and_then(|e| e.to_str())
            .map(|e| e.to_lowercase());
        assert_eq!(file_extension(name), expected);
    }
}

#[test]
fn durations() {
    assert_eq!(format_duration(0), "00:00:00");
    assert_eq!(format_duration(59), "00:00:59");
    assert_eq!(format_duration(3725), "01:02:05");
    assert_eq!(format_duration(360000), "100:00:00");
    assert_eq!(format_duration(86399), "23:59:59");
}

#[test]
fn log_levels() {
    assert_eq!(log_level_filter("warn", false), LogLevel::Warn);
    assert_eq!(log_level_filter("TRACE", false), LogLevel::Trace);
    assert_eq!(log_level_filter("Error", false), LogLevel::Error);
    assert_eq!(log_level_filter("off", false), LogLevel::Off);
    assert_eq!(log_level_filter("bogus", false), LogLevel::Info);
    assert_eq!(log_level_filter("warn", true), LogLevel::Debug);
}
