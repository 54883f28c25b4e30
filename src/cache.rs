//! The policy cache: one slot holding the latest snapshot and the time it was
//! read, refilled after a time-to-live by a single fetch that every caller
//! arriving meanwhile shares.
//!
//! The cache makes the decisions; whoever drives it performs the fetch. A
//! reader calls `begin` with the current time and gets one of three steps:
//! the cached snapshot, the order to fetch (given to exactly one caller while
//! the slot is stale), or the order to wait for the fetch already running.
//! The fetching caller hands the outcome to `complete`, whose result every
//! waiter receives too.

use vstd::prelude::*;
use crate::policy::{PolicySnapshot, PolicyView};

verus! {

/// Time-to-live of a cached snapshot, in milliseconds.
pub const BLOCKLIST_CACHE_DURATION_MS: u64 = 60000;

/// Why the policy store could not be read.
#[derive(Clone, Copy, Debug, PartialEq, Eq, Structural)]
pub enum StoreError {
    /// The store did not answer or refused the read; the read may be retried.
    Unavailable,
}

/// What a reader of the cache does next.
#[derive(Debug)]
pub enum CacheStep {
    /// The cached snapshot is fresh: use this copy of it.
    Ready(PolicySnapshot),
    /// The slot is stale and nobody fetches: this caller reads the store and
    /// hands the outcome to `complete`.
    Fetch,
    /// A fetch is running: wait for its outcome.
    Wait,
}

/// A snapshot together with the time at which it was read.
#[derive(Debug)]
pub struct CachedPolicy {
    pub snapshot: PolicySnapshot,
    pub fetched_at: u64,
}

/// The state of the cache.
#[derive(Debug)]
pub struct PolicyCache {
    ttl_ms: u64,
    entry: Option<CachedPolicy>,
    fetching: bool,
}

/// The mathematical state: the time-to-live, the cached snapshot with its
/// reading time, and whether a fetch is running.
pub struct CacheView {
    pub ttl: nat,
    pub entry: Option<(PolicyView, nat)>,
    pub fetching: bool,
}

impl View for PolicyCache {
    type V = CacheView;

    closed spec fn view(&self) -> CacheView {
        CacheView {
            ttl: self.ttl_ms as nat,
            entry: match self.entry {
                Some(c) => Some((c.snapshot@, c.fetched_at as nat)),
                None => None,
            },
            fetching: self.fetching,
        }
    }
}

/// The slot holds a snapshot read no later than `now` and less than the
/// time-to-live before it.
pub open spec fn is_fresh(c: CacheView, now: nat) -> bool {
    match c.entry {
        Some((_, at)) => at <= now && now < at + c.ttl,
        None => false,
    }
}

/// Whether a reader arriving at `now` is told to fetch.
pub open spec fn starts_fetch(c: CacheView, now: nat) -> bool {
    !is_fresh(c, now) && !c.fetching
}

/// The state after a reader arrives at `now`.
pub open spec fn after_begin(c: CacheView, now: nat) -> CacheView {
    if starts_fetch(c, now) {
        CacheView { fetching: true, ..c }
    } else {
        c
    }
}

/// The number of fetches started when readers arrive at the given times, one
/// after another, from state `c`.
pub open spec fn fetches_started(c: CacheView, times: Seq<nat>) -> nat
    decreases times.len(),
{
    if times.len() == 0 {
        0
    } else {
        (if starts_fetch(c, times[0]) { 1nat } else { 0nat }) + fetches_started(
            after_begin(c, times[0]),
            times.drop_first(),
        )
    }
}

impl PolicyCache {
    /// An empty cache whose snapshots live `ttl_ms` milliseconds.
    pub fn with_ttl(ttl_ms: u64) -> (r: Self)
        ensures
            r@.ttl == ttl_ms,
            r@.entry is None,
            !r@.fetching,
    {
        PolicyCache { ttl_ms, entry: None, fetching: false }
    }

    /// An empty cache with the standard time-to-live.
    pub fn new() -> (r: Self)
        ensures
            r@.ttl == BLOCKLIST_CACHE_DURATION_MS,
            r@.entry is None,
            !r@.fetching,
    {
        PolicyCache::with_ttl(BLOCKLIST_CACHE_DURATION_MS)
    }

    /// Whether the slot is fresh at `now`.
    pub fn fresh_at(&self, now: u64) -> (r: bool)
        ensures
            r == is_fresh(self@, now as nat),
    {
        match &self.entry {
            Some(c) => c.fetched_at <= now && now - c.fetched_at < self.ttl_ms,
            None => false,
        }
    }

    /// Whether a fetch is running.
    pub fn is_fetching(&self) -> (r: bool)
        ensures
            r == self@.fetching,
    {
        self.fetching
    }

    /// A reader arrives at `now`. A fresh slot is served; otherwise the first
    /// reader is told to fetch and later ones to wait until it completes.
    pub fn begin(&mut self, now: u64) -> (r: CacheStep)
        ensures
            final(self)@ == after_begin(old(self)@, now as nat),
            (r is Fetch) == starts_fetch(old(self)@, now as nat),
            (r is Wait) == (!is_fresh(old(self)@, now as nat) && old(self)@.fetching),
            r is Ready <==> is_fresh(old(self)@, now as nat),
            r matches CacheStep::Ready(s) ==> old(self)@.entry matches Some((p, _)) && s@ == p,
    {
        if self.fresh_at(now) {
            if let Some(c) = &self.entry {
                return CacheStep::Ready(c.snapshot.duplicate());
            }
        }
        if self.fetching {
            CacheStep::Wait
        } else {
            self.fetching = true;
            CacheStep::Fetch
        }
    }

    /// The running fetch ended at `now` with `outcome`. A snapshot read is
    /// installed with that time; a failure leaves the previous slot as it
    /// was. Either way the outcome is returned, for the fetching caller and
    /// every waiter alike.
    pub fn complete(&mut self, outcome: Result<PolicySnapshot, StoreError>, now: u64) -> (r: Result<PolicySnapshot, StoreError>)
        requires
            old(self)@.fetching,
        ensures
            !final(self)@.fetching,
            final(self)@.ttl == old(self)@.ttl,
            match outcome {
                Ok(s) => r matches Ok(t) && t@ == s@ && final(self)@.entry == Some((s@, now as nat)),
                Err(e) => r == Err::<PolicySnapshot, StoreError>(e) && final(self)@.entry == old(self)@.entry,
            },
    {
        self.fetching = false;
        match outcome {
            Ok(s) => {
                let copy = s.duplicate();
                self.entry = Some(CachedPolicy { snapshot: s, fetched_at: now });
                Ok(copy)
            },
            Err(e) => Err(e),
        }
    }

    /// The fetch was abandoned without an outcome: the next stale reader
    /// fetches again. The slot is kept.
    pub fn abandon(&mut self)
        ensures
            final(self)@ == (CacheView { fetching: false, ..old(self)@ }),
    {
        self.fetching = false;
    }

    /// Empties the slot, so that the next reader fetches.
    pub fn invalidate(&mut self)
        ensures
            final(self)@ == (CacheView { entry: None, ..old(self)@ }),
    {
        self.entry = None;
    }
}

/// Readers that arrive one after another while the slot is stale, with no
/// fetch completing meanwhile, start exactly one fetch between them if none
/// was running, and none if one was.
pub proof fn lemma_single_flight(c: CacheView, times: Seq<nat>)
    requires
        times.len() > 0,
        forall|i: int| 0 <= i < times.len() ==> !is_fresh(c, #[trigger] times[i]),
    ensures
        fetches_started(c, times) == (if c.fetching { 0nat } else { 1nat }),
{
    lemma_no_fetch_while_fetching(after_begin(c, times[0]), times.drop_first());
}

/// While a fetch runs and the slot stays stale, no reader starts another.
proof fn lemma_no_fetch_while_fetching(c: CacheView, times: Seq<nat>)
    requires
        c.fetching,
    ensures
        fetches_started(c, times) == 0,
    decreases times.len(),
{
    if times.len() > 0 {
        lemma_no_fetch_while_fetching(after_begin(c, times[0]), times.drop_first());
    }
}

} // verus!
