use rs_meta_cleaner::{
    Action, Backend, CleanMode, CleanOptions, CleanerError, FileResult, FileSession,
    MetadataCleaner, PathProbe, WalkEntry,
};

fn file_probe(p: &str) -> PathProbe {
    PathProbe { resolved: Some(p.to_string()), exists: true, is_dir: false, is_file: true }
}

fn dir_probe(p: &str) -> PathProbe {
    PathProbe { resolved: Some(p.to_string()), exists: true, is_dir: true, is_file: false }
}

/// Drives a session, answering each step with the given outcome function.
fn drive(
    mut s: FileSession,
    mut outcome: impl FnMut(Backend) -> Result<usize, CleanerError>,
) -> (Vec<Backend>, FileResult) {
    let mut steps = Vec::new();
    loop {
        match s.next_action() {
            Action::Run(b) => {
                steps.push(b);
                s.record(outcome(b));
            }
            Action::Finish(r) => return (steps, r),
        }
    }
}

#[test]
fn dry_run_runs_no_step() {
    let c = MetadataCleaner::with_options(CleanOptions::all().with_dry_run(true).with_admin(true));
    let s = c.clean_file("f.txt", &file_probe("/abs/f.txt")).unwrap();
    let (steps, r) = drive(s, |_| panic!("no step may run in dry-run mode"));
    assert!(steps.is_empty());
    assert!(r.success);
    assert_eq!(r.streams_removed, 0);
    assert!(!r.timestamps_reset);
    assert_eq!(r.path, "/abs/f.txt");
}

#[test]
fn full_clean_runs_steps_in_order() {
    let c = MetadataCleaner::with_options(CleanOptions::all());
    let s = c.clean_file("f", &file_probe("/f")).unwrap();
    let (steps, r) = drive(s, |b| if b == Backend::Streams { Ok(2) } else { Ok(0) });
    assert_eq!(
        steps,
        vec![Backend::Streams, Backend::Timestamps, Backend::Properties, Backend::OfficeXml]
    );
    assert!(r.success);
    assert_eq!(r.streams_removed, 2);
    assert!(r.timestamps_reset);
}

#[test]
fn rerun_on_clean_file_removes_nothing_and_resets_timestamps() {
    let c = MetadataCleaner::with_options(CleanOptions::all());
    let s = c.clean_file("f", &file_probe("/f")).unwrap();
    let (_, r) = drive(s, |_| Ok(0));
    assert!(r.success);
    assert_eq!(r.streams_removed, 0);
    assert!(r.timestamps_reset);
}

#[test]
fn admin_adds_owner_step() {
    let c = MetadataCleaner::with_options(CleanOptions::all().with_admin(true));
    let s = c.clean_file("f", &file_probe("/f")).unwrap();
    let (steps, _) = drive(s, |_| Ok(0));
    assert_eq!(
        steps,
        vec![
            Backend::Streams,
            Backend::Timestamps,
            Backend::Owner,
            Backend::Properties,
            Backend::OfficeXml
        ]
    );
}

#[test]
fn first_failure_ends_the_file() {
    let c = MetadataCleaner::with_options(CleanOptions::all());
    let s = c.clean_file("f", &file_probe("/f")).unwrap();
    let (steps, r) = drive(s, |b| match b {
        Backend::Streams => Ok(4),
        _ => Err(CleanerError::cleaning_failed("/f".to_string(), "locked".to_string())),
    });
    assert_eq!(steps, vec![Backend::Streams, Backend::Timestamps]);
    assert!(!r.success);
    assert_eq!(r.error.as_deref(), Some("Failed to clean metadata for '/f': locked"));
    assert_eq!(r.streams_removed, 0);
    assert!(!r.timestamps_reset);
}

#[test]
fn no_enabled_step_is_plain_success() {
    let c = MetadataCleaner::new();
    let s = c.clean_file("f", &file_probe("/f")).unwrap();
    let (steps, r) = drive(s, |_| Ok(9));
    assert!(steps.is_empty());
    assert!(r.success && r.streams_removed == 0 && !r.timestamps_reset);
}

#[test]
fn clean_file_path_errors() {
    let c = MetadataCleaner::new();
    let none = PathProbe { resolved: None, exists: false, is_dir: false, is_file: false };
    assert!(matches!(c.clean_file("gone", &none), Err(CleanerError::PathNotFound(p)) if p == "gone"));
    let vanished = PathProbe { resolved: Some("/v".to_string()), exists: false, is_dir: false, is_file: false };
    assert!(matches!(c.clean_file("v", &vanished), Err(CleanerError::PathNotFound(p)) if p == "/v"));
    assert!(matches!(c.clean_file("d", &dir_probe("/d")), Err(CleanerError::NotAFile(p)) if p == "/d"));
}

fn listing() -> Vec<WalkEntry> {
    vec![
        WalkEntry { path: "/d/a.txt".to_string(), depth: 1, is_file: true },
        WalkEntry { path: "/d/sub".to_string(), depth: 1, is_file: false },
        WalkEntry { path: "/d/sub/b.txt".to_string(), depth: 2, is_file: true },
        WalkEntry { path: "/d/sub/deeper".to_string(), depth: 2, is_file: false },
        WalkEntry { path: "/d/sub/deeper/c.txt".to_string(), depth: 3, is_file: true },
        WalkEntry { path: "/d/z.txt".to_string(), depth: 1, is_file: true },
    ]
}

#[test]
fn shallow_keeps_direct_files_only() {
    let c = MetadataCleaner::new();
    let files = c.collect_files("/d", &dir_probe("/d"), &listing(), CleanMode::Shallow).unwrap();
    assert_eq!(files, vec!["/d/a.txt".to_string(), "/d/z.txt".to_string()]);
}

#[test]
fn deep_keeps_files_at_every_depth() {
    let c = MetadataCleaner::new();
    let files = c.collect_files("/d", &dir_probe("/d"), &listing(), CleanMode::Deep).unwrap();
    assert_eq!(
        files,
        vec![
            "/d/a.txt".to_string(),
            "/d/sub/b.txt".to_string(),
            "/d/sub/deeper/c.txt".to_string(),
            "/d/z.txt".to_string()
        ]
    );
}

#[test]
fn collect_single_file_and_errors() {
    let c = MetadataCleaner::new();
    let one = c.collect_files("f", &file_probe("/f"), &Vec::new(), CleanMode::SingleFile).unwrap();
    assert_eq!(one, vec!["/f".to_string()]);
    assert!(matches!(
        c.collect_files("d", &dir_probe("/d"), &Vec::new(), CleanMode::SingleFile),
        Err(CleanerError::NotAFile(p)) if p == "/d"
    ));
    assert!(matches!(
        c.collect_files("f", &file_probe("/f"), &Vec::new(), CleanMode::Deep),
        Err(CleanerError::NotADirectory(p)) if p == "/f"
    ));
    let none = PathProbe { resolved: None, exists: false, is_dir: false, is_file: false };
    assert!(matches!(
        c.collect_files("x", &none, &Vec::new(), CleanMode::Shallow),
        Err(CleanerError::PathNotFound(p)) if p == "x"
    ));
}
