use parex::engine::{EntryResult, WalkConfig};
use parex::{search, Entry, EntryKind, Matcher, ParexError, Source};

/// Hands out a fixed list of items.
struct ListSource(Vec<(&'static str, EntryKind)>, Vec<(usize, ParexError)>);

impl Source for ListSource {
    fn walk(&self, _config: &WalkConfig) -> Vec<EntryResult> {
        let mut out = Vec::new();
        for (i, (path, kind)) in self.0.iter().enumerate() {
            for (at, err) in &self.1 {
                if *at == i {
                    out.push(Err(err.clone()));
                }
            }
            let name = path.rsplit('/').next().unwrap().to_string();
            out.push(Ok(Entry::new(path.to_string(), name, *kind, path.matches('/').count())));
        }
        out
    }
}

/// Seven entries: four files at the top, two of them invoices, one other
/// file, one subdirectory, and a nested invoice.
fn tree() -> Vec<(&'static str, EntryKind)> {
    vec![
        ("r/invoice_jan.txt", EntryKind::File),
        ("r/invoice_feb.txt", EntryKind::File),
        ("r/report.txt", EntryKind::File),
        ("r/notes.md", EntryKind::File),
        ("r/subdir", EntryKind::Dir),
        ("r/subdir/invoice_mar.txt", EntryKind::File),
        ("r/subdir/other.rs", EntryKind::File),
    ]
}

fn tree_source() -> ListSource {
    ListSource(tree(), vec![])
}

struct Nothing;

impl Matcher for Nothing {
    fn accepts(&self, _entry: Entry) -> bool {
        false
    }

    fn is_match(&self, _entry: &Entry) -> bool {
        false
    }
}

#[test]
fn unlimited_count_equals_accepted_entries() {
    let r = search().source(tree_source()).matching("invoice").run().unwrap();
    assert_eq!(r.matches, 3);
    let all = search().source(tree_source()).run().unwrap();
    assert_eq!(all.matches, 7);
}

#[test]
fn thread_count_does_not_change_counts() {
    let one = search().source(tree_source()).matching("invoice").threads(1).run().unwrap();
    let many = search().source(tree_source()).matching("invoice").threads(8).run().unwrap();
    assert_eq!(one.matches, many.matches);
    assert_eq!(one.stats.files, many.stats.files);
    assert_eq!(one.stats.dirs, many.stats.dirs);
}

#[test]
fn every_limit_clamps_the_count() {
    for l in 0..6usize {
        let r = search()
            .source(tree_source())
            .matching("invoice")
            .limit(l)
            .collect_paths(true)
            .run()
            .unwrap();
        assert_eq!(r.matches, std::cmp::min(3, l));
        assert!(r.paths.len() <= l);
    }
}

#[test]
fn limit_two_of_three_invoices() {
    let r = search()
        .source(tree_source())
        .matching("invoice")
        .limit(2)
        .collect_paths(true)
        .run()
        .unwrap();
    assert_eq!(r.matches, 2);
    assert_eq!(r.paths, vec!["r/invoice_jan.txt".to_string(), "r/invoice_feb.txt".to_string()]);
    // The pull run stops at the match that reaches the limit.
    assert_eq!(r.stats.files, 2);
    assert_eq!(r.stats.dirs, 0);
}

#[test]
fn limit_zero_reports_nothing() {
    let r = search()
        .source(tree_source())
        .matching("invoice")
        .limit(0)
        .collect_paths(true)
        .run()
        .unwrap();
    assert_eq!(r.matches, 0);
    assert!(r.paths.is_empty());
    assert_eq!(r.stats.files, 1);
}

#[test]
fn paths_follow_discovery_order() {
    let r = search().source(tree_source()).matching("invoice").collect_paths(true).run().unwrap();
    assert_eq!(
        r.paths,
        vec![
            "r/invoice_jan.txt".to_string(),
            "r/invoice_feb.txt".to_string(),
            "r/subdir/invoice_mar.txt".to_string(),
        ]
    );
}

#[test]
fn no_paths_without_collection_even_with_a_limit() {
    let r = search().source(tree_source()).matching("invoice").limit(2).run().unwrap();
    assert_eq!(r.matches, 2);
    assert!(r.paths.is_empty());
}

#[test]
fn no_errors_without_collection_even_when_reported() {
    let src = ListSource(tree(), vec![(2, ParexError::PermissionDenied("r/locked".to_string()))]);
    let r = search().source(src).run().unwrap();
    assert!(r.errors.is_empty());
}

#[test]
fn tallies_do_not_depend_on_the_matcher() {
    let a = search().source(tree_source()).run().unwrap();
    let b = search().source(tree_source()).matching("invoice").run().unwrap();
    let c = search().source(tree_source()).with_matcher(Nothing).run().unwrap();
    for r in [&a, &b, &c] {
        assert_eq!(r.stats.files, 6);
        assert_eq!(r.stats.dirs, 1);
    }
}

#[test]
fn symlinks_and_others_are_not_tallied() {
    let src = ListSource(
        vec![("r/link", EntryKind::Symlink), ("r/pipe", EntryKind::Other), ("r/a", EntryKind::File)],
        vec![],
    );
    let r = search().source(src).run().unwrap();
    assert_eq!(r.stats.files, 1);
    assert_eq!(r.stats.dirs, 0);
    assert_eq!(r.matches, 3);
}

#[test]
fn running_twice_gives_the_same_counts() {
    let first = search().source(tree_source()).matching("invoice").limit(2).run().unwrap();
    let second = search().source(tree_source()).matching("invoice").limit(2).run().unwrap();
    assert_eq!(first.matches, second.matches);
    assert_eq!(first.stats.files, second.stats.files);
    assert_eq!(first.stats.dirs, second.stats.dirs);
}

#[test]
fn always_false_matches_nothing_but_tallies_everything() {
    let r = search().source(tree_source()).with_matcher(Nothing).collect_paths(true).run().unwrap();
    assert_eq!(r.matches, 0);
    assert!(r.paths.is_empty());
    assert_eq!(r.stats.files, 6);
    assert_eq!(r.stats.dirs, 1);
}

#[test]
fn one_permission_denied_is_collected() {
    let denied = || ListSource(tree(), vec![(3, ParexError::PermissionDenied("r/locked".to_string()))]);
    let with = search().source(denied()).matching("invoice").collect_errors(true).run().unwrap();
    assert_eq!(with.errors.len(), 1);
    assert!(matches!(&with.errors[0], ParexError::PermissionDenied(p) if p == "r/locked"));
    let without = search().source(denied()).matching("invoice").run().unwrap();
    assert!(without.errors.is_empty());
    assert_eq!(with.matches, 3);
    assert_eq!(without.matches, 3);
    assert_eq!(without.stats.files, 6);
    assert_eq!(without.stats.dirs, 1);
}

#[test]
fn fatal_error_ends_the_search() {
    let src = ListSource(tree(), vec![(4, ParexError::Source("cursor closed".to_string()))]);
    let r = search().source(src).collect_errors(true).run();
    assert!(matches!(r, Err(ParexError::Source(d)) if d == "cursor closed"));
}

#[test]
fn fatal_error_after_the_limit_is_never_seen() {
    let src = ListSource(tree(), vec![(3, ParexError::Source("late".to_string()))]);
    let r = search().source(src).matching("invoice").limit(2).run().unwrap();
    assert_eq!(r.matches, 2);
}

#[test]
fn missing_source_is_refused() {
    let r = search().matching("invoice").run();
    assert!(matches!(r, Err(ParexError::InvalidSource(_))));
}

#[test]
fn zero_threads_are_refused() {
    let r = search().source(tree_source()).threads(0).run();
    assert!(matches!(r, Err(ParexError::InvalidThreadCount(0))));
}

#[test]
fn empty_source_gives_empty_results() {
    let r = search().source(ListSource(vec![], vec![])).collect_paths(true).run().unwrap();
    assert_eq!(r.matches, 0);
    assert_eq!(r.stats.files + r.stats.dirs, 0);
    assert_eq!(r.stats.entries_per_sec, 0);
}

#[test]
fn matching_ignores_case() {
    let src = ListSource(
        vec![("r/INVOICE_Q1.TXT", EntryKind::File), ("r/Invoice.md", EntryKind::File), ("r/bill", EntryKind::File)],
        vec![],
    );
    let r = search().source(src).matching("InVoice").run().unwrap();
    assert_eq!(r.matches, 2);
}

#[test]
fn builder_hands_its_settings_to_the_source() {
    let b = search().source(tree_source()).limit(3).threads(2).max_depth(1).collect_errors(true);
    let c = b.walk_config();
    assert_eq!((c.threads, c.max_depth, c.limit), (Some(2), Some(1), Some(3)));
    let o = b.engine_options();
    assert_eq!(o.config.max_depth, Some(1));
    assert!(!o.collect_paths && o.collect_errors);
}

#[test]
fn search_items_runs_the_engine_over_given_items() {
    let items = tree_source().walk(&WalkConfig { threads: None, max_depth: None, limit: None });
    let b = search().matching("invoice").collect_paths(true);
    let r = parex::builder::search_items(items, &b.matcher, &b.engine_options(), &std::time::Instant::now()).unwrap();
    assert_eq!(r.matches, 3);
    assert_eq!(r.paths.len(), 3);
    assert_eq!((r.stats.files, r.stats.dirs), (6, 1));
}

#[test]
fn entries_carry_metadata_on_demand() {
    let mut e = Entry::new("r/a".to_string(), "a".to_string(), EntryKind::File, 1);
    assert!(e.metadata.is_none());
    e.set_metadata(parex::EntryMetadata { len: 42, modified_nanos: Some(7) });
    assert_eq!(e.metadata.unwrap().len, 42);
    assert_eq!(e.path, "r/a");
}
