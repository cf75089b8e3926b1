use parex::engine::WalkConfig;
use parex::{search, Elapsed, ParexError, ScanStats, WalkFault};

#[test]
fn rate_is_whole_entries_per_second() {
    let s = ScanStats::compute(3, 1, Elapsed::from_nanos(2_000_000_000));
    assert_eq!((s.files, s.dirs, s.entries_per_sec), (3, 1, 2));
    assert_eq!(ScanStats::compute(7, 0, Elapsed::from_nanos(500_000_000)).entries_per_sec, 14);
    assert_eq!(ScanStats::compute(5, 0, Elapsed::from_nanos(3_000_000_000)).entries_per_sec, 1);
    assert_eq!(ScanStats::compute(2, 0, Elapsed::from_nanos(3_000_000_000)).entries_per_sec, 0);
}

#[test]
fn rate_is_zero_for_a_zero_duration() {
    let s = ScanStats::compute(10, 4, Elapsed::from_nanos(0));
    assert_eq!(s.entries_per_sec, 0);
    assert_eq!(s.duration.as_nanos(), 0);
}

#[test]
fn rate_saturates_at_the_largest_count() {
    let s = ScanStats::compute(usize::MAX, usize::MAX, Elapsed::from_nanos(1));
    assert_eq!(s.entries_per_sec, usize::MAX);
}

#[test]
fn elapsed_reports_nanos_and_seconds() {
    let e = Elapsed::from_nanos(2_500_000_000);
    assert_eq!(e.as_nanos(), 2_500_000_000);
    assert_eq!(e.as_secs(), 2);
}

#[test]
fn error_paths_by_variant() {
    let p = |e: &ParexError| e.path().cloned();
    assert_eq!(p(&ParexError::PermissionDenied("a".into())), Some("a".to_string()));
    assert_eq!(p(&ParexError::NotFound("b".into())), Some("b".to_string()));
    assert_eq!(p(&ParexError::InvalidSource("c".into())), Some("c".to_string()));
    assert_eq!(p(&ParexError::SymlinkLoop("d".into())), Some("d".to_string()));
    assert_eq!(p(&ParexError::Io { path: "e".into(), cause: "x".into() }), Some("e".to_string()));
    assert_eq!(p(&ParexError::InvalidPattern("f".into())), None);
    assert_eq!(p(&ParexError::InvalidThreadCount(0)), None);
    assert_eq!(p(&ParexError::ThreadPool("g".into())), None);
    assert_eq!(p(&ParexError::Source("h".into())), None);
    assert_eq!(p(&ParexError::Matcher("i".into())), None);
}

#[test]
fn recoverable_and_fatal_variants() {
    let recoverable = [
        ParexError::PermissionDenied("a".into()),
        ParexError::NotFound("a".into()),
        ParexError::SymlinkLoop("a".into()),
        ParexError::Io { path: "a".into(), cause: "b".into() },
    ];
    for e in &recoverable {
        assert!(e.is_recoverable());
        assert!(!e.is_fatal());
    }
    let fatal = [
        ParexError::InvalidSource("a".into()),
        ParexError::InvalidPattern("a".into()),
        ParexError::InvalidThreadCount(3),
        ParexError::ThreadPool("a".into()),
        ParexError::Source("a".into()),
        ParexError::Matcher("a".into()),
    ];
    for e in &fatal {
        assert!(!e.is_recoverable());
        assert!(e.is_fatal());
    }
}

#[test]
fn convenience_constructors() {
    assert!(matches!(ParexError::source_err("db down".to_string()), ParexError::Source(d) if d == "db down"));
    assert!(matches!(ParexError::matcher_err("bad regex".to_string()), ParexError::Matcher(d) if d == "bad regex"));
}

#[test]
fn walker_faults_are_classified() {
    let denied = ParexError::from_fault(WalkFault::Io { path: Some("p".into()), denied: true, cause: "c".into() });
    assert!(matches!(denied, ParexError::PermissionDenied(p) if p == "p"));
    let io = ParexError::from_fault(WalkFault::Io { path: Some("p".into()), denied: false, cause: "c".into() });
    assert!(matches!(io, ParexError::Io { path, cause } if path == "p" && cause == "c"));
    let bare = ParexError::from_fault(WalkFault::Io { path: None, denied: true, cause: "c".into() });
    assert!(matches!(bare, ParexError::Io { path, cause } if path.is_empty() && cause == "c"));
    let lp = ParexError::from_fault(WalkFault::Loop { child: "l".into() });
    assert!(matches!(lp, ParexError::SymlinkLoop(p) if p == "l"));
    let other = ParexError::from_fault(WalkFault::Other { detail: "glob".into() });
    assert!(matches!(other, ParexError::Source(d) if d == "glob"));
}

#[test]
fn builder_keeps_its_settings() {
    let b = search().limit(4).threads(2).max_depth(3).collect_paths(true).collect_errors(true);
    assert_eq!(b.limit, Some(4));
    assert_eq!(b.threads, Some(2));
    assert_eq!(b.max_depth, Some(3));
    assert!(b.collect_paths && b.collect_errors);
    let d = search();
    assert_eq!((d.limit, d.threads, d.max_depth), (None, None, None));
    assert!(!d.collect_paths && !d.collect_errors);
    let _unused: Option<WalkConfig> = None;
}
