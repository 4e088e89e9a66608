use rs_meta_cleaner::{
    CleanMode, CleanOptions, CleanReport, CleanerError, FileOutcome, FileResult, MetadataCleaner,
    PathProbe,
};

fn dir_probe(path: &str) -> PathProbe {
    PathProbe { resolved: Some(path.to_string()), exists: true, is_dir: true, is_file: false }
}

#[test]
fn options_all_enables_unprivileged_steps() {
    let o = CleanOptions::all();
    assert!(o.clear_timestamps && o.clear_streams && o.clear_attributes && o.clear_properties);
    assert!(!o.clear_owner && !o.dry_run && !o.verbose);
}

#[test]
fn options_builders_change_one_flag() {
    let o = CleanOptions::all().with_dry_run(true).with_verbose(true).with_admin(true);
    assert!(o.dry_run && o.verbose && o.clear_owner);
    assert!(o.clear_streams && o.clear_timestamps && o.clear_properties);
    let back = o.with_admin(false);
    assert!(!back.clear_owner && back.dry_run);
}

#[test]
fn default_options_are_all_off() {
    let o = CleanOptions::default();
    assert!(!o.clear_timestamps && !o.clear_streams && !o.clear_owner && !o.dry_run);
    assert_eq!(MetadataCleaner::new().options, o);
}

#[test]
fn clean_mode_labels() {
    assert_eq!(CleanMode::SingleFile.label(), "single file");
    assert_eq!(CleanMode::Shallow.label(), "shallow (non-recursive)");
    assert_eq!(CleanMode::Deep.label(), "deep (recursive)");
    assert_eq!(CleanMode::default(), CleanMode::SingleFile);
}

#[test]
fn failure_result_carries_message_and_no_counts() {
    let r = FileResult::failure("a.txt".to_string(), "boom".to_string());
    assert!(!r.success);
    assert_eq!(r.error.as_deref(), Some("boom"));
    assert_eq!(r.streams_removed, 0);
    assert!(!r.timestamps_reset);
    let s = FileResult::success("a.txt".to_string(), 3, true);
    assert!(s.success && s.error.is_none() && s.streams_removed == 3 && s.timestamps_reset);
}

#[test]
fn report_counts_after_mixed_results() {
    let mut rep = CleanReport::new();
    rep.add_result(FileResult::success("a".to_string(), 2, true));
    rep.add_result(FileResult::failure("b".to_string(), "bad".to_string()));
    rep.add_result(FileResult::success("c".to_string(), 5, true));
    rep.add_skipped();
    assert_eq!(rep.total_files, 3);
    assert_eq!(rep.successful, 2);
    assert_eq!(rep.failed, 1);
    assert_eq!(rep.skipped, 1);
    assert_eq!(rep.total_streams_removed, 7);
    assert_eq!(rep.total_files, rep.successful + rep.failed);
    assert_eq!(rep.file_results.len(), 3);
    assert!(!rep.is_complete_success());
}

#[test]
fn empty_report_is_complete_success() {
    let rep = CleanReport::new();
    assert_eq!(rep.total_files, 0);
    assert!(rep.is_complete_success());
}

#[test]
fn total_is_successful_plus_failed_over_many_adds() {
    let mut rep = CleanReport::new();
    for i in 0..20usize {
        if i % 3 == 0 {
            rep.add_result(FileResult::failure(format!("f{i}"), "x".to_string()));
        } else {
            rep.add_result(FileResult::success(format!("f{i}"), i, false));
        }
        assert_eq!(rep.total_files, rep.successful + rep.failed);
    }
    assert_eq!(rep.failed, 7);
}

#[test]
fn batch_with_one_unreadable_file() {
    let cleaner = MetadataCleaner::with_options(CleanOptions::all());
    let outcomes = vec![
        FileOutcome { path: "/d/a.txt".to_string(), result: Ok(FileResult::success("/d/a.txt".to_string(), 0, true)) },
        FileOutcome {
            path: "/d/b.txt".to_string(),
            result: Err(CleanerError::PermissionDenied("/d/b.txt".to_string())),
        },
        FileOutcome { path: "/d/c.txt".to_string(), result: Ok(FileResult::success("/d/c.txt".to_string(), 0, true)) },
    ];
    let rep = cleaner.clean_directory_shallow("/d", &dir_probe("/d"), outcomes).unwrap();
    assert_eq!(rep.total_files, 3);
    assert_eq!(rep.failed, 1);
    assert_eq!(rep.successful, 2);
    let failed = &rep.file_results[1];
    assert!(!failed.success);
    assert_eq!(failed.path, "/d/b.txt");
    assert_eq!(failed.error.as_deref(), Some("Permission denied: /d/b.txt"));
}

#[test]
fn directory_root_errors() {
    let cleaner = MetadataCleaner::new();
    let missing = PathProbe { resolved: None, exists: false, is_dir: false, is_file: false };
    match cleaner.clean_directory_deep("nowhere", &missing, Vec::new()) {
        Err(CleanerError::PathNotFound(p)) => assert_eq!(p, "nowhere"),
        _ => panic!("expected PathNotFound"),
    }
    let file = PathProbe { resolved: Some("/x/f".to_string()), exists: true, is_dir: false, is_file: true };
    match cleaner.clean_directory_deep("f", &file, Vec::new()) {
        Err(CleanerError::NotADirectory(p)) => assert_eq!(p, "/x/f"),
        _ => panic!("expected NotADirectory"),
    }
}

#[test]
fn error_messages() {
    assert_eq!(CleanerError::PathNotFound("p".to_string()).message(), "Path does not exist: p");
    assert_eq!(
        CleanerError::NotAFile("p".to_string()).message(),
        "Expected a file but found a directory: p"
    );
    assert_eq!(
        CleanerError::NotADirectory("p".to_string()).message(),
        "Expected a directory but found a file: p"
    );
    assert_eq!(
        CleanerError::cleaning_failed("p".to_string(), "why".to_string()).message(),
        "Failed to clean metadata for 'p': why"
    );
    assert_eq!(
        CleanerError::windows_api_error("p".to_string(), "denied".to_string()).message(),
        "Windows API error for 'p': denied"
    );
    assert_eq!(
        CleanerError::DirectoryReadError { path: "d".to_string(), source: "io".to_string() }.message(),
        "Failed to read directory 'd': io"
    );
    assert_eq!(CleanerError::IoError("disk".to_string()).message(), "I/O error: disk");
    assert_eq!(
        CleanerError::StreamEnumerationFailed("p".to_string()).message(),
        "Failed to enumerate data streams for 'p'"
    );
}
