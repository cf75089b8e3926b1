use vstd::prelude::*;

use crate::entry::{Entry, EntryKind};
use crate::error::ParexError;
use crate::results::{rate_of, Elapsed, Results, ScanStats};
use crate::traits::Matcher;

verus! {

/// One item handed over by a producer: an entry, or an error met instead.
pub type EntryResult = Result<Entry, ParexError>;

/// Traversal parameters shared between the engine and the producer.
pub struct WalkConfig {
    /// Worker count for the producer; `None` leaves it one per logical core.
    pub threads: Option<usize>,
    /// Deepest level the producer descends to, inclusive; `None` for no bound.
    pub max_depth: Option<usize>,
    /// Maximum number of matches to report; `None` for no limit.
    pub limit: Option<usize>,
}

/// What the engine is asked to do in one run.
pub struct EngineOptions {
    /// Traversal parameters.
    pub config: WalkConfig,
    /// Record the locator of each match.
    pub collect_paths: bool,
    /// Record recoverable errors.
    pub collect_errors: bool,
}

/// The verdict handed back to the producer after each item.
#[derive(Clone, Copy, Debug, PartialEq, Eq, Structural)]
pub enum WalkState {
    /// Keep dispatching items.
    Continue,
    /// Stop dispatching new items.
    Quit,
}

/// The two-guard decision for one match.
#[derive(Clone, Copy, Debug, PartialEq, Eq, Structural)]
pub struct MatchDecision {
    /// Whether the match's locator is to be recorded.
    pub record_path: bool,
    /// What to tell the producer.
    pub state: WalkState,
}

/// What to do with an error item.
#[derive(Clone, Copy, Debug, PartialEq, Eq, Structural)]
pub enum ErrorAction {
    /// Recoverable, and errors are collected: keep it and go on.
    Record,
    /// Recoverable, and errors are not collected: drop it and go on.
    Skip,
    /// Fatal: end the run with this error.
    Abort,
}

/// Workers used when neither the caller nor the machine gives a count.
pub const FALLBACK_WORKERS: usize = 4;

/// The number of workers a producer runs: the configured count, else one
/// per logical core when the machine reports `available` cores, else
/// `FALLBACK_WORKERS`.
pub fn worker_count(threads: Option<usize>, available: Option<usize>) -> (r: usize)
    ensures
        r == match threads {
            Some(n) => n,
            None => match available {
                Some(a) => a,
                None => FALLBACK_WORKERS,
            },
        },
{
    match threads {
        Some(n) => n,
        None => match available {
            Some(a) => a,
            None => FALLBACK_WORKERS,
        },
    }
}

/// The counter an entry is tallied in.
#[derive(Clone, Copy, Debug, PartialEq, Eq, Structural)]
pub enum Tally {
    /// The file count.
    Files,
    /// The directory count.
    Dirs,
}

/// Where an entry of kind `kind` is tallied: files and directories in their
/// counters, links and other kinds nowhere.
pub fn tally_of(kind: EntryKind) -> (r: Option<Tally>)
    ensures
        r == match kind {
            EntryKind::File => Some(Tally::Files),
            EntryKind::Dir => Some(Tally::Dirs),
            _ => None::<Tally>,
        },
{
    match kind {
        EntryKind::File => Some(Tally::Files),
        EntryKind::Dir => Some(Tally::Dirs),
        _ => None,
    }
}

/// The post-increment match count `m` lies beyond the limit.
pub open spec fn over_limit(m: int, limit: Option<usize>) -> bool {
    match limit {
        Some(l) => m > l,
        None => false,
    }
}

/// The post-increment match count `m` has reached the limit.
pub open spec fn reaches_limit(m: int, limit: Option<usize>) -> bool {
    match limit {
        Some(l) => m >= l,
        None => false,
    }
}

/// A raw match count, clamped to the limit.
pub open spec fn clamped(raw: int, limit: Option<usize>) -> int {
    match limit {
        Some(l) => if raw > l { l as int } else { raw },
        None => raw,
    }
}

/// The two-guard protocol, for the worker that just found a match and
/// obtained `m` from incrementing the shared match counter.
///
/// The early guard refuses to record a match beyond the limit; the late
/// guard asks the producer to quit once the limit is reached. Without a
/// limit every match is recorded (when paths are collected) and the walk
/// continues.
pub fn limit_guard(m: usize, limit: Option<usize>, collect_paths: bool) -> (d: MatchDecision)
    ensures
        d.record_path == (collect_paths && !over_limit(m as int, limit)),
        (d.state == WalkState::Quit) == reaches_limit(m as int, limit),
{
    match limit {
        Some(l) => {
            if m > l {
                MatchDecision { record_path: false, state: WalkState::Quit }
            } else if m >= l {
                MatchDecision { record_path: collect_paths, state: WalkState::Quit }
            } else {
                MatchDecision { record_path: collect_paths, state: WalkState::Continue }
            }
        },
        None => MatchDecision { record_path: collect_paths, state: WalkState::Continue },
    }
}

/// The reported match count: the raw count, clamped to the limit if any.
pub fn clamp_matches(raw: usize, limit: Option<usize>) -> (r: usize)
    ensures
        r == clamped(raw as int, limit),
{
    match limit {
        Some(l) => if raw > l { l } else { raw },
        None => raw,
    }
}

/// How an error item affects a run: fatal errors abort it, recoverable ones
/// are kept only when errors are collected.
pub fn error_action(err: &ParexError, collect_errors: bool) -> (a: ErrorAction)
    ensures
        a == (if !err.recoverable() {
            ErrorAction::Abort
        } else if collect_errors {
            ErrorAction::Record
        } else {
            ErrorAction::Skip
        }),
{
    if err.is_fatal() {
        ErrorAction::Abort
    } else if collect_errors {
        ErrorAction::Record
    } else {
        ErrorAction::Skip
    }
}

/// The item is an entry that the matcher accepted.
pub open spec fn is_hit(item: EntryResult, matched: bool) -> bool {
    item is Ok && matched
}

/// The item is an error that ends a run.
pub open spec fn is_fatal_item(item: EntryResult) -> bool {
    match item {
        Ok(_) => false,
        Err(e) => !e.recoverable(),
    }
}

/// Number of matches among the first `n` items, where `verdicts[k]` is what
/// the matcher said of item `k`.
pub open spec fn hit_count(items: Seq<EntryResult>, verdicts: Seq<bool>, n: nat) -> nat
    decreases n,
{
    if n == 0 {
        0
    } else {
        hit_count(items, verdicts, (n - 1) as nat) + if is_hit(items[n - 1], verdicts[n - 1]) {
            1nat
        } else {
            0nat
        }
    }
}

/// Number of entries of kind `kind` among the first `n` items.
pub open spec fn kind_count(items: Seq<EntryResult>, kind: EntryKind, n: nat) -> nat
    decreases n,
{
    if n == 0 {
        0
    } else {
        kind_count(items, kind, (n - 1) as nat) + match items[n - 1] {
            Ok(e) => if e.kind == kind {
                1nat
            } else {
                0nat
            },
            Err(_) => 0nat,
        }
    }
}

/// Locators of the matches among the first `n` items that the early guard
/// lets through: each match whose running count does not exceed the limit.
pub open spec fn recorded_paths(
    items: Seq<EntryResult>,
    verdicts: Seq<bool>,
    limit: Option<usize>,
    n: nat,
) -> Seq<String>
    decreases n,
{
    if n == 0 {
        Seq::empty()
    } else {
        let before = recorded_paths(items, verdicts, limit, (n - 1) as nat);
        match items[n - 1] {
            Ok(e) => if verdicts[n - 1] && !over_limit(hit_count(items, verdicts, n) as int, limit) {
                before.push(e.path)
            } else {
                before
            },
            Err(_) => before,
        }
    }
}

/// The recoverable errors among the first `n` items, in order.
pub open spec fn recoverable_errors(items: Seq<EntryResult>, n: nat) -> Seq<ParexError>
    decreases n,
{
    if n == 0 {
        Seq::empty()
    } else {
        let before = recoverable_errors(items, (n - 1) as nat);
        match items[n - 1] {
            Err(e) => if e.recoverable() {
                before.push(e)
            } else {
                before
            },
            Ok(_) => before,
        }
    }
}

/// A run stops right after item `k`: it is fatal, or it is the match that
/// brings the count to the limit.
pub open spec fn halts_at(
    items: Seq<EntryResult>,
    verdicts: Seq<bool>,
    limit: Option<usize>,
    k: int,
) -> bool {
    ||| is_fatal_item(items[k])
    ||| is_hit(items[k], verdicts[k]) && reaches_limit(
        hit_count(items, verdicts, (k + 1) as nat) as int,
        limit,
    )
}

/// Number of items a run consumes when it starts looking at item `i`.
pub open spec fn halt_from(
    items: Seq<EntryResult>,
    verdicts: Seq<bool>,
    limit: Option<usize>,
    i: nat,
) -> nat
    decreases items.len() - i,
{
    if i >= items.len() {
        items.len()
    } else if halts_at(items, verdicts, limit, i as int) {
        i + 1
    } else {
        halt_from(items, verdicts, limit, i + 1)
    }
}

/// Number of items a run consumes: up to and including the first one after
/// which it stops, or all of them.
pub open spec fn consumed(items: Seq<EntryResult>, verdicts: Seq<bool>, limit: Option<usize>) -> nat {
    halt_from(items, verdicts, limit, 0)
}

/// The run ends on a fatal error.
pub open spec fn fatal_stop(items: Seq<EntryResult>, verdicts: Seq<bool>, limit: Option<usize>) -> bool {
    let n = consumed(items, verdicts, limit);
    n > 0 && is_fatal_item(items[n - 1])
}

/// Shared, run-scoped state: counters and the collections of matches and
/// errors.
pub struct AggregationState {
    /// Number of matches counted, possibly past the limit.
    pub match_count: usize,
    /// Number of files seen.
    pub file_count: usize,
    /// Number of directories seen.
    pub dir_count: usize,
    /// Recorded locators of matches.
    pub paths: Vec<String>,
    /// Recorded recoverable errors.
    pub errors: Vec<ParexError>,
}

impl AggregationState {
    /// The state holds exactly what a run records over the first `n` items,
    /// the matcher having said `verdicts`.
    pub open spec fn tallies(
        self,
        items: Seq<EntryResult>,
        verdicts: Seq<bool>,
        options: EngineOptions,
        n: nat,
    ) -> bool {
        &&& self.match_count == hit_count(items, verdicts, n)
        &&& self.file_count == kind_count(items, EntryKind::File, n)
        &&& self.dir_count == kind_count(items, EntryKind::Dir, n)
        &&& self.paths@ == (if options.collect_paths {
            recorded_paths(items, verdicts, options.config.limit, n)
        } else {
            Seq::empty()
        })
        &&& self.errors@ == (if options.collect_errors {
            recoverable_errors(items, n)
        } else {
            Seq::empty()
        })
    }

    /// A fresh state: nothing counted, nothing recorded.
    pub fn new() -> (r: AggregationState)
        ensures
            r.match_count == 0,
            r.file_count == 0,
            r.dir_count == 0,
            r.paths@ == Seq::<String>::empty(),
            r.errors@ == Seq::<ParexError>::empty(),
    {
        AggregationState {
            match_count: 0,
            file_count: 0,
            dir_count: 0,
            paths: Vec::new(),
            errors: Vec::new(),
        }
    }

    /// Take one entry of which the matcher said `matched`: tally it by kind,
    /// and for a match apply the two-guard protocol. Returns what to tell
    /// the producer.
    pub fn record_entry(&mut self, entry: Entry, matched: bool, options: &EngineOptions) -> (v:
        WalkState)
        requires
            old(self).match_count < usize::MAX,
            old(self).file_count < usize::MAX,
            old(self).dir_count < usize::MAX,
        ensures
            final(self).file_count == old(self).file_count + if entry.kind == EntryKind::File {
                1int
            } else {
                0int
            },
            final(self).dir_count == old(self).dir_count + if entry.kind == EntryKind::Dir {
                1int
            } else {
                0int
            },
            final(self).errors@ == old(self).errors@,
            matched ==> {
                &&& final(self).match_count == old(self).match_count + 1
                &&& final(self).paths@ == if options.collect_paths && !over_limit(
                    final(self).match_count as int,
                    options.config.limit,
                ) {
                    old(self).paths@.push(entry.path)
                } else {
                    old(self).paths@
                }
                &&& (v == WalkState::Quit) == reaches_limit(
                    final(self).match_count as int,
                    options.config.limit,
                )
            },
            !matched ==> {
                &&& final(self).match_count == old(self).match_count
                &&& final(self).paths@ == old(self).paths@
                &&& v == WalkState::Continue
            },
    {
        match tally_of(entry.kind) {
            Some(Tally::Files) => self.file_count = self.file_count + 1,
            Some(Tally::Dirs) => self.dir_count = self.dir_count + 1,
            None => {},
        }
        if !matched {
            return WalkState::Continue;
        }
        self.match_count = self.match_count + 1;
        let decision = limit_guard(self.match_count, options.config.limit, options.collect_paths);
        if decision.record_path {
            self.paths.push(entry.path);
        }
        decision.state
    }

    /// Take one error item. A fatal error is handed back, ending the run; a
    /// recoverable one is kept when errors are collected.
    pub fn record_error(&mut self, err: ParexError, options: &EngineOptions) -> (r: Result<(), ParexError>)
        ensures
            final(self).match_count == old(self).match_count,
            final(self).file_count == old(self).file_count,
            final(self).dir_count == old(self).dir_count,
            final(self).paths@ == old(self).paths@,
            r is Err <==> !err.recoverable(),
            r matches Err(e) ==> e == err,
            final(self).errors@ == if err.recoverable() && options.collect_errors {
                old(self).errors@.push(err)
            } else {
                old(self).errors@
            },
    {
        match error_action(&err, options.collect_errors) {
            ErrorAction::Abort => Err(err),
            ErrorAction::Record => {
                self.errors.push(err);
                Ok(())
            },
            ErrorAction::Skip => Ok(()),
        }
    }

    /// Turn the state into the final summary, once no worker touches it any
    /// more: the match count is clamped to the limit, the collections are
    /// handed over as they are, and the rate is computed from `duration`.
    pub fn finish(self, limit: Option<usize>, duration: Elapsed) -> (r: Results)
        ensures
            r.matches == clamped(self.match_count as int, limit),
            r.paths@ == self.paths@,
            r.errors@ == self.errors@,
            r.stats.files == self.file_count,
            r.stats.dirs == self.dir_count,
            r.stats.duration == duration,
            r.stats.entries_per_sec == rate_of(
                self.file_count + self.dir_count,
                duration.nanos as int,
            ),
    {
        Results {
            matches: clamp_matches(self.match_count, limit),
            paths: self.paths,
            stats: ScanStats::compute(self.file_count, self.dir_count, duration),
            errors: self.errors,
        }
    }
}


/// What matcher `m` says of each item: whether it is an entry that `m`
/// accepts.
pub open spec fn verdicts_of<M: Matcher>(items: Seq<EntryResult>, m: M) -> Seq<bool> {
    Seq::new(items.len(), |k: int| items[k] is Ok && m.accepts(items[k]->Ok_0))
}

/// `r` is what a run of the engine over the producer's `items` ends with,
/// the matcher having said `verdicts[k]` of item `k`: the fatal error that
/// ended it, or the state over the items it consumed.
pub open spec fn aggregated(
    items: Seq<EntryResult>,
    verdicts: Seq<bool>,
    options: EngineOptions,
    r: Result<AggregationState, ParexError>,
) -> bool {
    let limit = options.config.limit;
    let n = consumed(items, verdicts, limit);
    &&& verdicts.len() == items.len()
    &&& match r {
        Ok(s) => !fatal_stop(items, verdicts, limit) && s.tallies(items, verdicts, options, n),
        Err(e) => fatal_stop(items, verdicts, limit) && items[n - 1] == Err::<Entry, ParexError>(e),
    }
}

/// `r` is what a search reports over the producer's `items`, the matcher
/// having said `verdicts[k]` of item `k`, whatever its duration: the fatal
/// error that ended it, or the clamped match count, the tallies, the
/// recorded paths and errors, and the rate over the items it consumed.
pub open spec fn summarizes(
    items: Seq<EntryResult>,
    verdicts: Seq<bool>,
    options: EngineOptions,
    r: Result<Results, ParexError>,
) -> bool {
    let limit = options.config.limit;
    let n = consumed(items, verdicts, limit);
    &&& verdicts.len() == items.len()
    &&& match r {
        Ok(res) => {
            &&& !fatal_stop(items, verdicts, limit)
            &&& res.matches == clamped(hit_count(items, verdicts, n) as int, limit)
            &&& res.stats.files == kind_count(items, EntryKind::File, n)
            &&& res.stats.dirs == kind_count(items, EntryKind::Dir, n)
            &&& res.paths@ == (if options.collect_paths {
                recorded_paths(items, verdicts, limit, n)
            } else {
                Seq::empty()
            })
            &&& res.errors@ == (if options.collect_errors {
                recoverable_errors(items, n)
            } else {
                Seq::empty()
            })
            &&& res.stats.entries_per_sec == rate_of(
                res.stats.files + res.stats.dirs,
                res.stats.duration.nanos as int,
            )
        },
        Err(e) => {
            &&& fatal_stop(items, verdicts, limit)
            &&& items[n - 1] == Err::<Entry, ParexError>(e)
        },
    }
}

/// With no stop before item `i`, a run consumes as many items as one that
/// starts looking at item `i`.
proof fn lemma_halt_from_skips(
    items: Seq<EntryResult>,
    verdicts: Seq<bool>,
    limit: Option<usize>,
    j: nat,
    i: nat,
)
    requires
        j <= i <= items.len(),
        forall|k: int| 0 <= k < i ==> !halts_at(items, verdicts, limit, k),
    ensures
        halt_from(items, verdicts, limit, j) == halt_from(items, verdicts, limit, i),
    decreases i - j,
{
    if j < i {
        lemma_halt_from_skips(items, verdicts, limit, j + 1, i);
    }
}

/// The items of `items` in reverse order.
fn reversed<T>(items: Vec<T>) -> (r: Vec<T>)
    ensures
        r@.len() == items@.len(),
        forall|j: int| 0 <= j < r@.len() ==> r@[j] == items@[items@.len() - 1 - j],
{
    let ghost all = items@;
    let mut rest = items;
    let mut r: Vec<T> = Vec::new();
    while rest.len() > 0
        invariant
            rest@ == all.take(all.len() - r@.len()),
            r@.len() <= all.len(),
            forall|j: int| 0 <= j < r@.len() ==> r@[j] == all[all.len() - 1 - j],
        decreases rest.len(),
    {
        let item = rest.pop().unwrap();
        r.push(item);
    }
    r
}

/// Run the match engine over the items of a pull-shape producer, in order.
///
/// Each entry is tallied by kind and shown to the matcher; each match is
/// counted and put through the two-guard protocol, and the run stops at the
/// match that reaches the limit. Recoverable errors are kept when errors are
/// collected; a fatal one ends the run and is returned. The matcher is asked
/// about each entry the run looks at, never about an error.
pub fn aggregate<M: Matcher>(items: Vec<EntryResult>, matcher: &M, options: &EngineOptions) -> (r:
    Result<AggregationState, ParexError>)
    ensures
        aggregated(items@, verdicts_of(items@, *matcher), *options, r),
{
    let ghost all = items@;
    let ghost limit = options.config.limit;
    let n = items.len();
    let ghost v = verdicts_of(all, *matcher);
    // Items are popped off a reversed copy, so each moves out in order
    // without being cloned.
    let mut pending = reversed(items);
    let mut state = AggregationState::new();
    let mut i: usize = 0;
    while i < n
        invariant
            n == all.len(),
            all == items@,
            v == verdicts_of(all, *matcher),
            i <= n,
            pending@.len() == n - i,
            forall|j: int| 0 <= j < pending@.len() ==> pending@[j] == all[n - 1 - j],
            forall|k: int| 0 <= k < i ==> !halts_at(all, v, limit, k),
            limit == options.config.limit,
            state.tallies(all, v, *options, i as nat),
            state.match_count <= i,
            state.file_count <= i,
            state.dir_count <= i,
        decreases n - i,
    {
        let item = pending.pop().unwrap();
        assert(item == all[i as int]);
        match item {
            Err(e) => {
                let res = state.record_error(e, options);
                if let Err(fatal) = res {
                    proof {
                        assert(halts_at(all, v, limit, i as int));
                        lemma_halt_from_skips(all, v, limit, 0, i as nat);
                        assert(consumed(all, v, limit) == i + 1);
                        assert(aggregated(all, v, *options, Err(fatal)));
                    }
                    return Err(fatal);
                }
            },
            Ok(entry) => {
                let matched = matcher.is_match(&entry);
                assert(matched == v[i as int]);
                let verdict = state.record_entry(entry, matched, options);
                if verdict == WalkState::Quit {
                    proof {
                        assert(halts_at(all, v, limit, i as int));
                        lemma_halt_from_skips(all, v, limit, 0, i as nat);
                        assert(consumed(all, v, limit) == i + 1);
                        assert(!fatal_stop(all, v, limit));
                        assert(aggregated(all, v, *options, Ok(state)));
                    }
                    return Ok(state);
                }
            },
        }
        assert(!halts_at(all, v, limit, i as int));
        i = i + 1;
    }
    proof {
        lemma_halt_from_skips(all, v, limit, 0, n as nat);
        assert(consumed(all, v, limit) == n);
        if n > 0 {
            assert(!halts_at(all, v, limit, n - 1));
        }
        assert(aggregated(all, v, *options, Ok(state)));
    }
    Ok(state)
}

} // verus!
