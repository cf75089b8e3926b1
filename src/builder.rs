use std::time::Instant;

use vstd::prelude::*;
use vstd::string::StringExecFns;

use crate::engine::{aggregate, summarizes, verdicts_of, EngineOptions, EntryResult, WalkConfig};
use crate::entry::Entry;
use crate::error::ParexError;
use crate::results::{Elapsed, Results};
use crate::traits::{Matcher, Source};

verus! {

#[verifier::external_type_specification]
#[verifier::external_body]
pub struct ExInstant(std::time::Instant);

/// The characters of `s`, lowercased as `str::to_lowercase` does.
pub uninterp spec fn lower_of(s: Seq<char>) -> Seq<char>;

/// Relies on `str::to_lowercase`: the lowercase form of `s`, a function of
/// its characters alone.
#[verifier::external_body]
fn lowercase(s: &str) -> (r: String)
    ensures
        r@ == lower_of(s@),
{
    s.to_lowercase()
}

/// `needle` occurs in `hay` as a run of consecutive characters.
pub open spec fn occurs_in(needle: Seq<char>, hay: Seq<char>) -> bool {
    exists|i: int|
        0 <= i && i + needle.len() <= hay.len() && #[trigger] hay.subrange(i, i + needle.len())
            == needle
}

/// Relies on `str::contains` with a `&str` pattern: whether `needle` occurs
/// in `hay`.
#[verifier::external_body]
fn contains_str(hay: &str, needle: &str) -> (r: bool)
    ensures
        r == occurs_in(needle@, hay@),
{
    hay.contains(needle)
}

/// Relies on `Instant::now`: a reading of the monotonic clock.
#[verifier::external_body]
fn clock_now() -> Instant {
    Instant::now()
}

/// Relies on `Instant::elapsed`: the time since `start`, in nanoseconds.
#[verifier::external_body]
fn elapsed_since(start: &Instant) -> Elapsed {
    Elapsed { nanos: start.elapsed().as_nanos() }
}

/// Matches entries whose name contains a pattern, ignoring case.
pub struct SubstringMatcher {
    pattern: String,
}

impl SubstringMatcher {
    /// The lowercased pattern that names are searched for.
    pub closed spec fn needle(&self) -> Seq<char> {
        self.pattern@
    }

    /// A matcher for names that contain `pattern`, ignoring case.
    pub fn new(pattern: &str) -> (r: SubstringMatcher)
        ensures
            r.needle() == lower_of(pattern@),
    {
        SubstringMatcher { pattern: lowercase(pattern) }
    }
}

impl SubstringMatcher {
    /// Whether `name`, lowercased, contains the lowercased pattern.
    pub fn matches_name(&self, name: &str) -> (r: bool)
        ensures
            r == occurs_in(self.needle(), lower_of(name@)),
    {
        let lowered = lowercase(name);
        contains_str(lowered.as_str(), self.pattern.as_str())
    }
}

impl Matcher for SubstringMatcher {
    open spec fn accepts(&self, entry: Entry) -> bool {
        occurs_in(self.needle(), lower_of(entry.name@))
    }

    fn is_match(&self, entry: &Entry) -> (r: bool) {
        self.matches_name(entry.name.as_str())
    }
}

/// Matches every entry; the matcher of a search that names none.
pub struct AllMatcher;

impl Matcher for AllMatcher {
    open spec fn accepts(&self, entry: Entry) -> bool {
        true
    }

    fn is_match(&self, entry: &Entry) -> (r: bool) {
        true
    }
}

/// The source of a search that names none: it yields nothing.
pub struct NoSource;

impl Source for NoSource {
    fn walk(&self, config: &WalkConfig) -> Vec<EntryResult> {
        Vec::new()
    }
}

/// Configures and runs a search.
///
/// Created by `search()`; set a source and optionally a matcher and
/// options, then call `run`.
pub struct SearchBuilder<S: Source, M: Matcher> {
    /// Where entries come from; a search without one fails.
    pub source: Option<S>,
    /// Which entries match.
    pub matcher: M,
    /// Stop after this many matches.
    pub limit: Option<usize>,
    /// Worker count for the producer; `None` for one per logical core.
    pub threads: Option<usize>,
    /// Deepest traversal level, inclusive.
    pub max_depth: Option<usize>,
    /// Record the locators of matches.
    pub collect_paths: bool,
    /// Record recoverable errors.
    pub collect_errors: bool,
}

impl Default for SearchBuilder<NoSource, AllMatcher> {
    fn default() -> (r: Self)
        ensures
            r.source is None,
            r.limit is None,
            r.threads is None,
            r.max_depth is None,
            !r.collect_paths,
            !r.collect_errors,
    {
        SearchBuilder {
            source: None,
            matcher: AllMatcher,
            limit: None,
            threads: None,
            max_depth: None,
            collect_paths: false,
            collect_errors: false,
        }
    }
}

impl<S: Source, M: Matcher> SearchBuilder<S, M> {
    /// The engine options this builder runs with.
    pub open spec fn options(self) -> EngineOptions {
        EngineOptions {
            config: WalkConfig {
                threads: self.threads,
                max_depth: self.max_depth,
                limit: self.limit,
            },
            collect_paths: self.collect_paths,
            collect_errors: self.collect_errors,
        }
    }

    /// The traversal parameters handed to the source.
    pub fn walk_config(&self) -> (r: WalkConfig)
        ensures
            r == self.options().config,
    {
        WalkConfig { threads: self.threads, max_depth: self.max_depth, limit: self.limit }
    }

    /// The options the engine runs with.
    pub fn engine_options(&self) -> (r: EngineOptions)
        ensures
            r == self.options(),
    {
        EngineOptions {
            config: self.walk_config(),
            collect_paths: self.collect_paths,
            collect_errors: self.collect_errors,
        }
    }

    /// Set the source to search through: any type implementing `Source`.
    pub fn source<T: Source>(self, s: T) -> (r: SearchBuilder<T, M>)
        ensures
            r.source == Some(s),
            r.matcher == self.matcher,
            r.limit == self.limit,
            r.threads == self.threads,
            r.max_depth == self.max_depth,
            r.collect_paths == self.collect_paths,
            r.collect_errors == self.collect_errors,
    {
        SearchBuilder {
            source: Some(s),
            matcher: self.matcher,
            limit: self.limit,
            threads: self.threads,
            max_depth: self.max_depth,
            collect_paths: self.collect_paths,
            collect_errors: self.collect_errors,
        }
    }

    /// Set a custom matcher: any type implementing `Matcher`.
    pub fn with_matcher<N: Matcher>(self, m: N) -> (r: SearchBuilder<S, N>)
        ensures
            r.source == self.source,
            r.matcher == m,
            r.limit == self.limit,
            r.threads == self.threads,
            r.max_depth == self.max_depth,
            r.collect_paths == self.collect_paths,
            r.collect_errors == self.collect_errors,
    {
        SearchBuilder {
            source: self.source,
            matcher: m,
            limit: self.limit,
            threads: self.threads,
            max_depth: self.max_depth,
            collect_paths: self.collect_paths,
            collect_errors: self.collect_errors,
        }
    }

    /// Match entries whose name contains `pattern`, ignoring case.
    pub fn matching(self, pattern: &str) -> (r: SearchBuilder<S, SubstringMatcher>)
        ensures
            r.source == self.source,
            r.matcher.needle() == lower_of(pattern@),
            r.limit == self.limit,
            r.threads == self.threads,
            r.max_depth == self.max_depth,
            r.collect_paths == self.collect_paths,
            r.collect_errors == self.collect_errors,
    {
        self.with_matcher(SubstringMatcher::new(pattern))
    }

    /// Stop after `n` matches. Under concurrency the raw count may run past
    /// `n`; the reported count never does.
    pub fn limit(self, n: usize) -> (r: Self)
        ensures
            r == (SearchBuilder { limit: Some(n), ..self }),
    {
        SearchBuilder { limit: Some(n), ..self }
    }

    /// Number of workers the producer may use; zero is refused by `run`.
    pub fn threads(self, n: usize) -> (r: Self)
        ensures
            r == (SearchBuilder { threads: Some(n), ..self }),
    {
        SearchBuilder { threads: Some(n), ..self }
    }

    /// Deepest traversal level: `0` is the root only, `1` its children, and
    /// so on. Unbounded by default.
    pub fn max_depth(self, d: usize) -> (r: Self)
        ensures
            r == (SearchBuilder { max_depth: Some(d), ..self }),
    {
        SearchBuilder { max_depth: Some(d), ..self }
    }

    /// Record the locators of matches in `Results::paths`. Off by default.
    pub fn collect_paths(self, yes: bool) -> (r: Self)
        ensures
            r == (SearchBuilder { collect_paths: yes, ..self }),
    {
        SearchBuilder { collect_paths: yes, ..self }
    }

    /// Record recoverable errors in `Results::errors`. Off by default.
    pub fn collect_errors(self, yes: bool) -> (r: Self)
        ensures
            r == (SearchBuilder { collect_errors: yes, ..self }),
    {
        SearchBuilder { collect_errors: yes, ..self }
    }

    /// Execute the search and return its summary.
    ///
    /// Fails before any traversal when no source was given or the worker
    /// count is zero. Otherwise the source is walked once with
    /// `walk_config()`, and its items are run through the engine by
    /// `search_items`: a fatal item ends the search with that error.
    pub fn run(self) -> (r: Result<Results, ParexError>)
        ensures
            self.source is None ==> r matches Err(ParexError::InvalidSource(_)),
            self.source is Some && self.threads == Some(0usize) ==> r == Err::<
                Results,
                ParexError,
            >(ParexError::InvalidThreadCount(0)),
            self.source is Some && self.threads != Some(0usize) ==> exists|items: Seq<EntryResult>|
                #[trigger] summarizes(items, verdicts_of(items, self.matcher), self.options(), r),
    {
        let source = match &self.source {
            Some(s) => s,
            None => {
                return Err(ParexError::InvalidSource(String::from_str("no source provided")));
            },
        };
        if let Some(0) = self.threads {
            return Err(ParexError::InvalidThreadCount(0));
        }
        let options = self.engine_options();
        let start = clock_now();
        let items = source.walk(&self.walk_config());
        let ghost walked = items@;
        let r = search_items(items, &self.matcher, &options, &start);
        assert(summarizes(walked, verdicts_of(walked, self.matcher), self.options(), r));
        r
    }
}

/// Run the engine over the items a source yielded, timing the search from
/// `started`: the summary, or the fatal error that ended the run.
pub fn search_items<M: Matcher>(
    items: Vec<EntryResult>,
    matcher: &M,
    options: &EngineOptions,
    started: &Instant,
) -> (r: Result<Results, ParexError>)
    ensures
        summarizes(items@, verdicts_of(items@, *matcher), *options, r),
{
    match aggregate(items, matcher, options) {
        Ok(state) => Ok(state.finish(options.config.limit, elapsed_since(started))),
        Err(e) => Err(e),
    }
}

/// A new search builder: no source, every entry matches, no limit, workers
/// left to the producer, nothing collected.
pub fn search() -> (r: SearchBuilder<NoSource, AllMatcher>)
    ensures
        r.source is None,
        r.limit is None,
        r.threads is None,
        r.max_depth is None,
        !r.collect_paths,
        !r.collect_errors,
{
    SearchBuilder::default()
}

} // verus!
