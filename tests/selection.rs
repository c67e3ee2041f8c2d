use postout::errors::FilterError;
use postout::filters::{
    ext_matches, extension, filtered, has_wanted_extension, select_latest, sweep_targets, DirListing,
    FileEntry, FilteredFiles, Lastest,
};

const DIR: &str = "/tmp/out";

fn entry(name: &str, is_file: bool, modified: Option<u64>) -> FileEntry {
    FileEntry {
        name: name.to_string(),
        path: format!("{DIR}/{name}"),
        is_file,
        modified,
    }
}

fn exts(list: &[&str]) -> Vec<String> {
    list.iter().map(|s| s.to_string()).collect()
}

fn five_test_files() -> DirListing {
    DirListing::Entries(
        (0..5u64)
            .map(|i| entry(&format!("{i}.igs_postexp_test"), true, Some(1_000 + i)))
            .collect(),
    )
}

#[test]
fn test_filtered() {
    let listing = five_test_files();
    let result = listing.filtered(&exts(&["igs_postexp_test"]));
    assert!(result.is_ok_and(|r| r.len() == 5));
}

#[test]
fn failed_test_lastest() {
    let empty_dir: Vec<FileEntry> = vec![];
    assert!(empty_dir.lastest().is_none());
}

#[test]
fn success_test_lastest() {
    let listing = five_test_files();
    let result = listing.filtered(&exts(&["igs_postexp_test"])).unwrap();
    assert_eq!(
        result.lastest().unwrap().path,
        format!("{DIR}/{}", "4.igs_postexp_test")
    );
}

#[test]
fn newest_matching_file_is_selected() {
    let listing = DirListing::Entries(vec![
        entry("a.nc", true, Some(10)),
        entry("b.igs", true, Some(30)),
        entry("c.nc", true, Some(20)),
    ]);
    let r = select_latest(&listing, &exts(&["nc"])).unwrap();
    assert_eq!(r.name, "c.nc");
}

#[test]
fn missing_directory_is_reported() {
    let r = select_latest(&DirListing::NotFound, &exts(&["nc"]));
    assert!(matches!(r, Err(FilterError::DirectoryNotFound)));
    let f = filtered(&DirListing::NotFound, &exts(&["nc"]));
    assert!(matches!(f, Err(FilterError::DirectoryNotFound)));
}

#[test]
fn unreadable_directory_is_reported() {
    let r = select_latest(&DirListing::Unreadable, &exts(&["nc"]));
    assert!(matches!(r, Err(FilterError::DirectoryUnreadable)));
}

#[test]
fn no_qualifying_file_gives_no_matches() {
    let listing = DirListing::Entries(vec![
        entry("a.igs", true, Some(10)),
        entry("nc", true, Some(11)),
        entry("sub.nc", false, Some(12)),
    ]);
    let r = select_latest(&listing, &exts(&["nc"]));
    assert!(matches!(r, Err(FilterError::NoMatches)));
    let empty = DirListing::Entries(vec![]);
    assert!(matches!(select_latest(&empty, &exts(&["nc"])), Err(FilterError::NoMatches)));
}

#[test]
fn directories_are_not_candidates() {
    let listing = DirListing::Entries(vec![
        entry("old.nc", true, Some(1)),
        entry("new.nc", false, Some(100)),
    ]);
    assert_eq!(select_latest(&listing, &exts(&["nc"])).unwrap().name, "old.nc");
}

#[test]
fn extension_is_compared_in_lowercase() {
    let listing = DirListing::Entries(vec![
        entry("a.nc", true, Some(1)),
        entry("PART.NC", true, Some(5)),
    ]);
    assert_eq!(select_latest(&listing, &exts(&["nc"])).unwrap().name, "PART.NC");
    assert!(has_wanted_extension("Part.Tap", &exts(&["nc", "tap"])));
    assert!(!has_wanted_extension("part.tap", &exts(&["TAP"])));
}

#[test]
fn equal_times_pick_the_last_listed() {
    let listing = DirListing::Entries(vec![
        entry("x.nc", true, Some(7)),
        entry("y.nc", true, Some(7)),
        entry("z.nc", true, Some(3)),
    ]);
    assert_eq!(select_latest(&listing, &exts(&["nc"])).unwrap().name, "y.nc");
}

#[test]
fn unreadable_time_loses_to_any_readable_time() {
    let listing = DirListing::Entries(vec![
        entry("epoch.nc", true, Some(0)),
        entry("unknown.nc", true, None),
    ]);
    assert_eq!(select_latest(&listing, &exts(&["nc"])).unwrap().name, "epoch.nc");
    let alone = DirListing::Entries(vec![entry("unknown.nc", true, None)]);
    assert_eq!(select_latest(&alone, &exts(&["nc"])).unwrap().name, "unknown.nc");
}

#[test]
fn extension_follows_the_last_dot() {
    assert_eq!(extension("run.log.1"), Some("1"));
    assert_eq!(extension("part.nc"), Some("nc"));
    assert_eq!(extension("noext"), None);
    assert_eq!(extension(".profile"), None);
    assert_eq!(extension(".a.b"), Some("b"));
    assert_eq!(extension("trailing."), Some(""));
}

#[test]
fn extension_lookup_is_exact() {
    let list = exts(&["nc", "h"]);
    assert!(ext_matches("h", &list));
    assert!(!ext_matches("hh", &list));
    assert!(!ext_matches("", &list));
}

#[test]
fn filter_keeps_listing_order() {
    let listing = DirListing::Entries(vec![
        entry("b.nc", true, Some(2)),
        entry("skip.igs", true, Some(9)),
        entry("a.NC", true, Some(1)),
    ]);
    let names: Vec<String> = filtered(&listing, &exts(&["nc"]))
        .unwrap()
        .into_iter()
        .map(|e| e.name)
        .collect();
    assert_eq!(names, vec!["b.nc".to_string(), "a.NC".to_string()]);
}

#[test]
fn sweep_takes_marked_logs_only() {
    let listing = DirListing::Entries(vec![
        entry("run.log.1", true, Some(1)),
        entry("run.log.2", true, Some(2)),
        entry("keep.tap", true, Some(3)),
        entry("trace.1", true, Some(4)),
    ]);
    let names: Vec<String> = sweep_targets(&listing, &exts(&["1", "2", "3"]), "log")
        .into_iter()
        .map(|e| e.name)
        .collect();
    assert_eq!(names, vec!["run.log.1".to_string(), "run.log.2".to_string()]);
}

#[test]
fn sweep_of_missing_directory_is_empty() {
    assert!(sweep_targets(&DirListing::NotFound, &exts(&["1"]), "log").is_empty());
    assert!(sweep_targets(&DirListing::Unreadable, &exts(&["1"]), "log").is_empty());
}
