//! Properties of a search that hold for every producer, every matcher and
//! every configuration, proved over the engine's model.
//!
//! Each law speaks of what a search reports over the items its producer
//! handed over, with matcher `m`: the outcome `search_items` and
//! `SearchBuilder::run` promise.
use vstd::prelude::*;

use crate::engine::{
    clamped, consumed, fatal_stop, halt_from, halts_at, hit_count, is_fatal_item, kind_count,
    over_limit, reaches_limit, recorded_paths, recoverable_errors, summarizes, verdicts_of,
    EngineOptions, EntryResult,
};
use crate::entry::{Entry, EntryKind};
use crate::error::ParexError;
use crate::results::Results;
use crate::traits::Matcher;

verus! {

/// Where a run that starts looking at item `i` stops: right after the first
/// item that halts it, or after the last item.
proof fn lemma_halt_from_shape(
    items: Seq<EntryResult>,
    verdicts: Seq<bool>,
    limit: Option<usize>,
    i: nat,
)
    requires
        i <= items.len(),
    ensures
        i <= halt_from(items, verdicts, limit, i) <= items.len(),
        forall|k: int|
            i <= k < halt_from(items, verdicts, limit, i) - 1 ==> !#[trigger] halts_at(
                items,
                verdicts,
                limit,
                k,
            ),
        halt_from(items, verdicts, limit, i) < items.len() ==> halt_from(items, verdicts, limit, i)
            > i,
        halt_from(items, verdicts, limit, i) < items.len() ==> halts_at(
            items,
            verdicts,
            limit,
            halt_from(items, verdicts, limit, i) - 1,
        ),
    decreases items.len() - i,
{
    if i < items.len() && !halts_at(items, verdicts, limit, i as int) {
        lemma_halt_from_shape(items, verdicts, limit, i + 1);
    }
}

/// A run without a limit that ends without a fatal error looks at every item.
proof fn lemma_unlimited_sees_all(items: Seq<EntryResult>, verdicts: Seq<bool>, limit: Option<usize>)
    requires
        limit is None,
        !fatal_stop(items, verdicts, limit),
    ensures
        consumed(items, verdicts, limit) == items.len(),
{
    lemma_halt_from_shape(items, verdicts, limit, 0);
    let n = consumed(items, verdicts, limit);
    if n < items.len() {
        assert(halts_at(items, verdicts, limit, n - 1));
    }
}

/// The matches among a prefix are never more than among a longer prefix.
proof fn lemma_hit_count_grows(items: Seq<EntryResult>, verdicts: Seq<bool>, i: nat, j: nat)
    requires
        i <= j,
    ensures
        hit_count(items, verdicts, i) <= hit_count(items, verdicts, j),
    decreases j - i,
{
    if i < j {
        lemma_hit_count_grows(items, verdicts, i, (j - 1) as nat);
    }
}

/// Each recorded locator belongs to a match within the limit, so there are
/// never more of them than matches, nor than the limit.
proof fn lemma_recorded_bounded(
    items: Seq<EntryResult>,
    verdicts: Seq<bool>,
    limit: Option<usize>,
    n: nat,
)
    ensures
        recorded_paths(items, verdicts, limit, n).len() <= hit_count(items, verdicts, n),
        limit matches Some(l) ==> recorded_paths(items, verdicts, limit, n).len() <= l,
    decreases n,
{
    if n > 0 {
        lemma_recorded_bounded(items, verdicts, limit, (n - 1) as nat);
    }
}

/// A search whose producer hands over no fatal error succeeds.
pub proof fn lemma_succeeds_without_fatal_items<M: Matcher>(
    items: Seq<EntryResult>,
    m: M,
    options: EngineOptions,
    r: Result<Results, ParexError>,
)
    requires
        summarizes(items, verdicts_of(items, m), options, r),
        forall|k: int| 0 <= k < items.len() ==> !#[trigger] is_fatal_item(items[k]),
    ensures
        r is Ok,
{
    let limit = options.config.limit;
    let v = verdicts_of(items, m);
    lemma_halt_from_shape(items, v, limit, 0);
    if r is Err {
        assert(!is_fatal_item(items[consumed(items, v, limit) - 1]));
    }
}

/// Without a limit, a search that succeeds reports exactly the number of
/// entries the matcher accepts.
pub proof fn lemma_unlimited_counts_every_match<M: Matcher>(
    items: Seq<EntryResult>,
    m: M,
    options: EngineOptions,
    r: Result<Results, ParexError>,
)
    requires
        options.config.limit is None,
        summarizes(items, verdicts_of(items, m), options, r),
        r is Ok,
    ensures
        r->Ok_0.matches == hit_count(items, verdicts_of(items, m), items.len()),
{
    lemma_unlimited_sees_all(items, verdicts_of(items, m), options.config.limit);
}

/// With any limit, a search that succeeds reports the number of entries the
/// matcher accepts, clamped to the limit, however far the raw count went.
pub proof fn lemma_matches_clamped_to_limit<M: Matcher>(
    items: Seq<EntryResult>,
    m: M,
    options: EngineOptions,
    r: Result<Results, ParexError>,
)
    requires
        summarizes(items, verdicts_of(items, m), options, r),
        r is Ok,
    ensures
        r->Ok_0.matches == clamped(
            hit_count(items, verdicts_of(items, m), items.len()) as int,
            options.config.limit,
        ),
{
    let limit = options.config.limit;
    let v = verdicts_of(items, m);
    lemma_halt_from_shape(items, v, limit, 0);
    let n = consumed(items, v, limit);
    if n < items.len() {
        assert(halts_at(items, v, limit, n - 1));
        lemma_hit_count_grows(items, v, n, items.len());
    }
}

/// A successful search with a limit records no more locators than the limit.
pub proof fn lemma_paths_within_limit<M: Matcher>(
    items: Seq<EntryResult>,
    m: M,
    options: EngineOptions,
    r: Result<Results, ParexError>,
)
    requires
        summarizes(items, verdicts_of(items, m), options, r),
        r is Ok,
        options.config.limit is Some,
    ensures
        r->Ok_0.paths@.len() <= options.config.limit->Some_0,
{
    let limit = options.config.limit;
    let v = verdicts_of(items, m);
    lemma_recorded_bounded(items, v, limit, consumed(items, v, limit));
}

/// A search that does not collect paths reports none, whatever it matched.
pub proof fn lemma_no_paths_unless_collected<M: Matcher>(
    items: Seq<EntryResult>,
    m: M,
    options: EngineOptions,
    r: Result<Results, ParexError>,
)
    requires
        summarizes(items, verdicts_of(items, m), options, r),
        r is Ok,
        !options.collect_paths,
    ensures
        r->Ok_0.paths@.len() == 0,
{
}

/// A search that does not collect errors reports none, whatever recoverable
/// errors the producer handed over; without a fatal one it still succeeds.
pub proof fn lemma_no_errors_unless_collected<M: Matcher>(
    items: Seq<EntryResult>,
    m: M,
    options: EngineOptions,
    r: Result<Results, ParexError>,
)
    requires
        summarizes(items, verdicts_of(items, m), options, r),
        forall|k: int| 0 <= k < items.len() ==> !#[trigger] is_fatal_item(items[k]),
        !options.collect_errors,
    ensures
        r is Ok,
        r->Ok_0.errors@.len() == 0,
{
    lemma_succeeds_without_fatal_items(items, m, options, r);
}

/// Without a limit, the file and directory tallies count every file and
/// directory entry, and two matchers, whatever they accept, give the same
/// tallies.
pub proof fn lemma_tallies_ignore_matcher<M1: Matcher, M2: Matcher>(
    items: Seq<EntryResult>,
    m1: M1,
    m2: M2,
    options: EngineOptions,
    r1: Result<Results, ParexError>,
    r2: Result<Results, ParexError>,
)
    requires
        options.config.limit is None,
        summarizes(items, verdicts_of(items, m1), options, r1),
        summarizes(items, verdicts_of(items, m2), options, r2),
        r1 is Ok,
    ensures
        r2 is Ok,
        r1->Ok_0.stats.files == kind_count(items, EntryKind::File, items.len()),
        r1->Ok_0.stats.dirs == kind_count(items, EntryKind::Dir, items.len()),
        r2->Ok_0.stats.files == r1->Ok_0.stats.files,
        r2->Ok_0.stats.dirs == r1->Ok_0.stats.dirs,
{
    let limit = options.config.limit;
    let v1 = verdicts_of(items, m1);
    let v2 = verdicts_of(items, m2);
    lemma_unlimited_sees_all(items, v1, limit);
    lemma_halt_from_shape(items, v1, limit, 0);
    lemma_halt_from_shape(items, v2, limit, 0);
    let n2 = consumed(items, v2, limit);
    if n2 > 0 && halts_at(items, v2, limit, n2 - 1) {
        if n2 < items.len() {
            assert(!halts_at(items, v1, limit, n2 - 1));
        }
    }
    if n2 < items.len() {
        assert(halts_at(items, v2, limit, n2 - 1));
    }
    lemma_unlimited_sees_all(items, v2, limit);
}

/// Two runs over the same items with the same matcher and the same limit
/// agree: both fail with the same error, or both succeed with the same match
/// count and tallies, whatever worker counts, depth bounds or collection
/// settings they were given.
pub proof fn lemma_runs_agree<M: Matcher>(
    items: Seq<EntryResult>,
    m: M,
    options1: EngineOptions,
    options2: EngineOptions,
    r1: Result<Results, ParexError>,
    r2: Result<Results, ParexError>,
)
    requires
        options1.config.limit == options2.config.limit,
        summarizes(items, verdicts_of(items, m), options1, r1),
        summarizes(items, verdicts_of(items, m), options2, r2),
    ensures
        r1 is Ok <==> r2 is Ok,
        r1 is Err ==> r1 == r2,
        r1 is Ok ==> r1->Ok_0.matches == r2->Ok_0.matches,
        r1 is Ok ==> r1->Ok_0.stats.files == r2->Ok_0.stats.files,
        r1 is Ok ==> r1->Ok_0.stats.dirs == r2->Ok_0.stats.dirs,
{
}

/// A matcher that accepts no entry: a search without fatal errors succeeds
/// with no match and no path, and still tallies every file and directory.
pub proof fn lemma_nothing_accepted<M: Matcher>(
    items: Seq<EntryResult>,
    m: M,
    options: EngineOptions,
    r: Result<Results, ParexError>,
)
    requires
        summarizes(items, verdicts_of(items, m), options, r),
        forall|k: int| 0 <= k < items.len() ==> !#[trigger] is_fatal_item(items[k]),
        forall|e: Entry| !#[trigger] m.accepts(e),
    ensures
        r is Ok,
        r->Ok_0.matches == 0,
        r->Ok_0.paths@.len() == 0,
        r->Ok_0.stats.files == kind_count(items, EntryKind::File, items.len()),
        r->Ok_0.stats.dirs == kind_count(items, EntryKind::Dir, items.len()),
{
    let limit = options.config.limit;
    let v = verdicts_of(items, m);
    lemma_succeeds_without_fatal_items(items, m, options, r);
    lemma_halt_from_shape(items, v, limit, 0);
    let n = consumed(items, v, limit);
    if n < items.len() {
        assert(halts_at(items, v, limit, n - 1));
        assert(!is_fatal_item(items[n - 1]));
    }
    lemma_no_hits(items, v, n);
    lemma_recorded_bounded(items, v, limit, n);
}

/// Where no entry was accepted, no match is counted.
proof fn lemma_no_hits(items: Seq<EntryResult>, verdicts: Seq<bool>, n: nat)
    requires
        n <= items.len(),
        n <= verdicts.len(),
        forall|k: int| 0 <= k < n ==> !#[trigger] verdicts[k],
    ensures
        hit_count(items, verdicts, n) == 0,
    decreases n,
{
    if n > 0 {
        lemma_no_hits(items, verdicts, (n - 1) as nat);
    }
}

/// The recoverable errors among the first `n` items, when the only error is
/// `e` at position `j`.
proof fn lemma_single_error(items: Seq<EntryResult>, j: int, e: ParexError, n: nat)
    requires
        0 <= j < items.len(),
        n <= items.len(),
        items[j] == Err::<Entry, ParexError>(e),
        e.recoverable(),
        forall|k: int| 0 <= k < items.len() && k != j ==> #[trigger] items[k] is Ok,
    ensures
        recoverable_errors(items, n) == (if n > j {
            seq![e]
        } else {
            Seq::<ParexError>::empty()
        }),
    decreases n,
{
    if n > 0 {
        lemma_single_error(items, j, e, (n - 1) as nat);
        if n - 1 == j {
            assert(Seq::<ParexError>::empty().push(e) =~= seq![e]);
        }
    }
}

/// A producer that reports one permission failure and otherwise hands over
/// entries, searched without a limit: the search succeeds, and it reports
/// exactly that error when errors are collected and none otherwise.
pub proof fn lemma_one_denied_entry<M: Matcher>(
    items: Seq<EntryResult>,
    m: M,
    options: EngineOptions,
    r: Result<Results, ParexError>,
    j: int,
    p: String,
)
    requires
        summarizes(items, verdicts_of(items, m), options, r),
        options.config.limit is None,
        0 <= j < items.len(),
        items[j] == Err::<Entry, ParexError>(ParexError::PermissionDenied(p)),
        forall|k: int| 0 <= k < items.len() && k != j ==> #[trigger] items[k] is Ok,
    ensures
        r is Ok,
        r->Ok_0.errors@ == (if options.collect_errors {
            seq![ParexError::PermissionDenied(p)]
        } else {
            Seq::<ParexError>::empty()
        }),
{
    assert forall|k: int| 0 <= k < items.len() implies !#[trigger] is_fatal_item(items[k]) by {
        if k != j {
            assert(items[k] is Ok);
        }
    }
    lemma_succeeds_without_fatal_items(items, m, options, r);
    lemma_unlimited_sees_all(items, verdicts_of(items, m), options.config.limit);
    lemma_single_error(items, j, ParexError::PermissionDenied(p), items.len());
}

/// Push shape: each worker that finds a match obtains a distinct
/// post-increment value `k` in `1..=raw` and runs the two-guard protocol on
/// it. The producer stops dispatching only after some `k` reached the limit,
/// and otherwise dispatches every entry, so that without such a `k` the raw
/// count is the true one. Then the clamped count is the true count clamped
/// to the limit, whatever the overshoot, and without a limit it is the true
/// count, whatever the number of workers.
pub proof fn lemma_push_matches_exact(raw: nat, true_count: nat, limit: Option<usize>)
    requires
        raw <= true_count,
        (forall|k: int| 1 <= k <= raw ==> !#[trigger] reaches_limit(k, limit)) ==> raw
            == true_count,
    ensures
        clamped(raw as int, limit) == clamped(true_count as int, limit),
        limit is None ==> clamped(raw as int, limit) == true_count,
{
    match limit {
        Some(l) => {
            if raw < l {
                assert forall|k: int| 1 <= k <= raw implies !#[trigger] reaches_limit(k, limit) by {}
            }
        },
        None => {
            assert forall|k: int| 1 <= k <= raw implies !#[trigger] reaches_limit(k, limit) by {}
        },
    }
}

/// Number of post-increment values in `1..=raw` whose match the early guard
/// lets record.
pub open spec fn recordable_upto(raw: nat, limit: Option<usize>) -> nat
    decreases raw,
{
    if raw == 0 {
        0
    } else {
        recordable_upto((raw - 1) as nat, limit) + if over_limit(raw as int, limit) {
            0nat
        } else {
            1nat
        }
    }
}

/// Push shape: since the post-increment values are distinct, the early guard
/// lets at most `limit` matches record their locators, however many workers
/// overshoot.
pub proof fn lemma_push_paths_within_limit(raw: nat, limit: Option<usize>)
    ensures
        recordable_upto(raw, limit) == clamped(raw as int, limit),
    decreases raw,
{
    if raw > 0 {
        lemma_push_paths_within_limit((raw - 1) as nat, limit);
    }
}

} // verus!
