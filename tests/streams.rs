use rs_meta_cleaner::{
    count_removed, filetime_from_unix, filetime_parts, property_stream_paths, stream_delete_target,
    stream_delete_targets, NEUTRAL_FILETIME, NEUTRAL_UNIX_SECS,
};

#[test]
fn primary_stream_is_never_a_target() {
    assert_eq!(stream_delete_target("C:\\f.txt", "::$DATA"), None);
    assert_eq!(stream_delete_target("C:\\f.txt", ""), None);
}

#[test]
fn named_stream_target_is_built_from_its_bare_name() {
    assert_eq!(
        stream_delete_target("C:\\f.txt", ":Zone.Identifier:$DATA"),
        Some("C:\\f.txt:Zone.Identifier".to_string())
    );
    assert_eq!(stream_delete_target("f", "::x:$DATA:$DATA"), Some("f:x".to_string()));
    assert_eq!(stream_delete_target("f", "plain"), Some("f:plain".to_string()));
}

#[test]
fn targets_skip_the_primary_stream_and_keep_order() {
    let names = vec!["::$DATA".to_string(), ":b:$DATA".to_string(), ":a:$DATA".to_string()];
    assert_eq!(stream_delete_targets("f", &names), vec!["f:b".to_string(), "f:a".to_string()]);
}

#[test]
fn file_without_named_streams_removes_nothing() {
    let names = vec!["::$DATA".to_string()];
    let targets = stream_delete_targets("f", &names);
    assert!(targets.is_empty());
    assert_eq!(count_removed(&Vec::new()), 0);
    assert!(stream_delete_targets("f", &names).is_empty());
}

#[test]
fn failed_deletions_are_not_counted() {
    assert_eq!(count_removed(&vec![true, false, true, true]), 3);
    assert_eq!(count_removed(&vec![false, false]), 0);
}

#[test]
fn property_streams_of_a_path() {
    let p = property_stream_paths("f");
    assert_eq!(
        p,
        vec![
            "f:Zone.Identifier".to_string(),
            "f:\u{5}SummaryInformation".to_string(),
            "f:\u{5}DocumentSummaryInformation".to_string(),
            "f:Afp_AfpInfo".to_string(),
            "f:encryptable".to_string(),
            "f:OECustomProperty".to_string(),
        ]
    );
}

#[test]
fn neutral_instant_in_both_encodings() {
    assert_eq!(filetime_from_unix(NEUTRAL_UNIX_SECS), Some(NEUTRAL_FILETIME));
    assert_eq!(filetime_from_unix(0), Some(116444736000000000));
    assert_eq!(filetime_from_unix(u64::MAX), None);
    let (low, high) = filetime_parts(NEUTRAL_FILETIME);
    assert_eq!((high as u64) << 32 | low as u64, NEUTRAL_FILETIME);
    assert_eq!(filetime_parts(0x0000_0001_0000_0002), (2, 1));
}
