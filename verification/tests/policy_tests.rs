use mdhasher::ignore_policy::IgnoreSet;
use mdhasher::walk::{is_stale, EntryDecision, EntryKind, Walker};

#[test]
fn tmp_pattern_excludes_only_tmp() {
    let mut w = Walker::new(true, true, 0);
    let lines = vec!["*.tmp".to_string()];
    assert!(w.ignores.push_dir("root", &lines));
    let now: u64 = 1_000;
    assert_eq!(
        w.check_entry("root/a.tmp", EntryKind::File, now, now),
        EntryDecision::SkipIgnored
    );
    assert_eq!(
        w.check_entry("root/b.txt", EntryKind::File, now, now),
        EntryDecision::Hash
    );
}

#[test]
fn ignoring_can_be_switched_off() {
    let mut w = Walker::new(false, true, 0);
    let lines = vec!["*.tmp".to_string()];
    w.ignores.push_dir("root", &lines);
    let now: u64 = 1_000;
    assert_eq!(
        w.check_entry("root/a.tmp", EntryKind::File, now, now),
        EntryDecision::Hash
    );
}

#[test]
fn deeper_rules_override_shallower() {
    let mut s = IgnoreSet::new();
    assert!(s.push_dir("r", &vec!["*.tmp".to_string()]));
    assert!(s.push_dir("r/sub", &vec!["!keep.tmp".to_string()]));
    assert!(s.excluded("r/sub/a.tmp", false));
    assert!(!s.excluded("r/sub/keep.tmp", false));
    s.pop_dir();
    assert!(s.excluded("r/keep.tmp", false));
}

#[test]
fn extra_file_applies_everywhere_but_yields_to_directories() {
    let mut s = IgnoreSet::new();
    assert!(s.set_extra("r", &vec!["*.log".to_string()]));
    assert!(s.excluded("r/x.log", false));
    assert!(s.push_dir("r", &vec!["!x.log".to_string()]));
    assert!(!s.excluded("r/x.log", false));
}

#[test]
fn directory_only_patterns() {
    let mut s = IgnoreSet::new();
    assert!(s.push_dir("r", &vec!["build/".to_string()]));
    assert!(s.excluded("r/build", true));
    assert!(!s.excluded("r/build", false));
}

#[test]
fn comments_do_not_exclude() {
    let mut s = IgnoreSet::new();
    assert!(s.push_dir("r", &vec!["# *.txt".to_string()]));
    assert!(!s.excluded("r/a.txt", false));
}

#[test]
fn staleness_filter_and_its_override() {
    let now: u64 = 1_000;
    let filtered = Walker::new(true, false, 100);
    assert_eq!(
        filtered.check_entry("f", EntryKind::File, 800, now),
        EntryDecision::SkipStale
    );
    assert_eq!(
        filtered.check_entry("f", EntryKind::File, 900, now),
        EntryDecision::Hash
    );
    let all = Walker::new(true, true, 100);
    assert_eq!(
        all.check_entry("f", EntryKind::File, 800, now),
        EntryDecision::Hash
    );
}

#[test]
fn stale_comparison_is_strict() {
    assert!(is_stale(899, 1_000, 100));
    assert!(!is_stale(900, 1_000, 100));
    assert!(!is_stale(2_000, 1_000, 100));
}

#[test]
fn symlinks_are_never_followed() {
    let w = Walker::new(true, true, 0);
    assert_eq!(
        w.check_entry("r/link", EntryKind::Symlink, 0, 0),
        EntryDecision::SkipSymlink
    );
}

#[test]
fn directories_descend_and_others_are_skipped() {
    let w = Walker::new(true, true, 0);
    assert_eq!(
        w.check_entry("r/sub", EntryKind::Directory, 0, 0),
        EntryDecision::Descend
    );
    assert_eq!(
        w.check_entry("r/fifo", EntryKind::Other, 0, 0),
        EntryDecision::SkipOther
    );
}

#[test]
fn excluded_directories_are_pruned() {
    let mut w = Walker::new(true, true, 0);
    assert!(w.ignores.push_dir("r", &vec!["node_modules/".to_string()]));
    assert_eq!(
        w.check_entry("r/node_modules", EntryKind::Directory, 0, 0),
        EntryDecision::SkipIgnored
    );
}
