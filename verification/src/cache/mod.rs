//! The conversation between read-through caching logic and the outside
//! world: the commands the logic issues to the cache and the repository, the
//! events that come back, and a model of a faithful cache and repository
//! in which the caching laws are stated.

use vstd::prelude::*;

verus! {

/// What the caching logic asks the outside world to do next.
pub enum CacheCommand<L> {
    /// Read the cached list.
    Read,
    /// Store a list in the cache.
    Write(L),
    /// Remove the cached list.
    Evict,
    /// Query the repository for the list.
    Load,
}

/// What the outside world reports back after a command.
pub enum CacheEvent<L> {
    /// The cache held this list.
    Hit(L),
    /// The cache held no list, or reading it failed.
    Miss,
    /// The repository returned this list.
    Loaded(L),
    /// The cache write finished; `true` when it succeeded.
    Written(bool),
    /// The cache entry was removed (or its removal failed, which is ignored).
    Evicted,
}

/// The next move of the caching logic.
pub enum Step<L> {
    /// Perform this command and report its event.
    Perform(CacheCommand<L>),
    /// The work is done; this is the list.
    Return(L),
    /// Store this list in the cache; once that succeeds the work is done
    /// and this is the list, and if it fails the work fails.
    CacheThenReturn(L),
    /// The work failed (the event was not one that could follow, or a
    /// required cache operation failed).
    Fail,
}

/// A model of the outside world: the list the repository holds and what
/// the cache holds.
pub struct CacheWorld<L> {
    pub rows: L,
    pub cached: Option<L>,
}

/// Whether the cache holds nothing or exactly the repository's list.
pub open spec fn coherent<L>(w: CacheWorld<L>) -> bool {
    w.cached is None || w.cached == Some(w.rows)
}

/// How a faithful cache and repository answer a command: a read gives back
/// what was last written, a load gives the repository's list, writes and
/// evictions succeed.
pub open spec fn respond<L>(w: CacheWorld<L>, c: CacheCommand<L>) -> (CacheWorld<L>, CacheEvent<L>) {
    match c {
        CacheCommand::Read => (
            w,
            match w.cached {
                Some(l) => CacheEvent::Hit(l),
                None => CacheEvent::Miss,
            },
        ),
        CacheCommand::Write(l) => (CacheWorld { rows: w.rows, cached: Some(l) }, CacheEvent::Written(true)),
        CacheCommand::Evict => (CacheWorld { rows: w.rows, cached: None }, CacheEvent::Evicted),
        CacheCommand::Load => (w, CacheEvent::Loaded(w.rows)),
    }
}

} // verus!
