//! The task service: the task list is read through the cache, and every
//! change to a task clears the cached list.

use vstd::prelude::*;
use crate::models::Task;
use crate::cache::{CacheCommand, CacheEvent, CacheWorld, Step, coherent, respond};

verus! {

/// The key under which the task list is cached.
pub open spec fn task_list_key() -> Seq<char> {
    "task_list"@
}

/// The key under which the task list is cached.
pub fn cache_key() -> (k: &'static str)
    ensures
        k@ == task_list_key(),
{
    "task_list"
}

/// Where a listing stands.
#[derive(Debug, Clone, Copy, PartialEq, Eq, Structural)]
pub enum ListPhase {
    /// Waiting for the first cache read.
    Checking,
    /// Waiting for the repository's list.
    Loading,
    /// Waiting for the cache write.
    Writing,
    /// Waiting for the second cache read.
    Rereading,
    /// Done.
    Finished,
}

/// The listing's transitions. A cached list is returned as it is; on a miss
/// the repository's list is loaded, written to the cache (whether the write
/// succeeds is not looked at) and read back from the cache, and a miss on
/// that second read fails the listing.
pub open spec fn list_next<L>(phase: ListPhase, e: CacheEvent<L>) -> (ListPhase, Step<L>) {
    match (phase, e) {
        (ListPhase::Checking, CacheEvent::Hit(l)) => (ListPhase::Finished, Step::Return(l)),
        (ListPhase::Checking, CacheEvent::Miss) => (ListPhase::Loading, Step::Perform(CacheCommand::Load)),
        (ListPhase::Loading, CacheEvent::Loaded(l)) => (ListPhase::Writing, Step::Perform(CacheCommand::Write(l))),
        (ListPhase::Writing, CacheEvent::Written(_)) => (ListPhase::Rereading, Step::Perform(CacheCommand::Read)),
        (ListPhase::Rereading, CacheEvent::Hit(l)) => (ListPhase::Finished, Step::Return(l)),
        _ => (ListPhase::Finished, Step::Fail),
    }
}

/// The first move of a listing: read the cache.
pub fn list<L>() -> (r: (ListPhase, Step<L>))
    ensures
        r == (ListPhase::Checking, Step::<L>::Perform(CacheCommand::Read)),
{
    (ListPhase::Checking, Step::Perform(CacheCommand::Read))
}

/// The next move of a listing after `e`.
pub fn list_step<L>(phase: ListPhase, e: CacheEvent<L>) -> (r: (ListPhase, Step<L>))
    ensures
        r == list_next(phase, e),
{
    match phase {
        ListPhase::Checking => match e {
            CacheEvent::Hit(l) => (ListPhase::Finished, Step::Return(l)),
            CacheEvent::Miss => (ListPhase::Loading, Step::Perform(CacheCommand::Load)),
            _ => (ListPhase::Finished, Step::Fail),
        },
        ListPhase::Loading => match e {
            CacheEvent::Loaded(l) => (ListPhase::Writing, Step::Perform(CacheCommand::Write(l))),
            _ => (ListPhase::Finished, Step::Fail),
        },
        ListPhase::Writing => match e {
            CacheEvent::Written(_) => (ListPhase::Rereading, Step::Perform(CacheCommand::Read)),
            _ => (ListPhase::Finished, Step::Fail),
        },
        ListPhase::Rereading => match e {
            CacheEvent::Hit(l) => (ListPhase::Finished, Step::Return(l)),
            _ => (ListPhase::Finished, Step::Fail),
        },
        ListPhase::Finished => (ListPhase::Finished, Step::Fail),
    }
}

/// A listing run against the model world for at most `fuel` commands.
pub open spec fn list_run<L>(w: CacheWorld<L>, phase: ListPhase, step: Step<L>, fuel: nat) -> (CacheWorld<L>, Step<L>)
    decreases fuel,
{
    if fuel == 0 {
        (w, step)
    } else {
        match step {
            Step::Perform(c) => {
                let (w2, e) = respond(w, c);
                let (p2, s2) = list_next(phase, e);
                list_run(w2, p2, s2, (fuel - 1) as nat)
            },
            _ => (w, step),
        }
    }
}

/// A listing from its first move, with room for every command it can issue.
pub open spec fn list_outcome<L>(w: CacheWorld<L>) -> (CacheWorld<L>, Step<L>) {
    list_run(w, ListPhase::Checking, Step::Perform(CacheCommand::Read), 4)
}

/// A change the task service makes to the outside world.
pub enum Change {
    /// Delete the task with this id from the repository.
    Remove(i32),
    /// Save the given record in the repository.
    Store(Task),
    /// Remove the cached task list.
    Evict,
}

/// The changes that deleting the task `id` makes, in order.
pub open spec fn delete_plan(id: i32) -> Seq<Change> {
    seq![Change::Remove(id), Change::Evict]
}

/// The changes that saving `task` makes, in order.
pub open spec fn save_plan(task: Task) -> Seq<Change> {
    seq![Change::Store(task), Change::Evict]
}

/// Deleting a task: remove it from the repository, then clear the cached
/// list.
pub fn delete(id: i32) -> (plan: Vec<Change>)
    ensures
        plan@ == delete_plan(id),
{
    let mut plan = Vec::new();
    plan.push(Change::Remove(id));
    plan.push(Change::Evict);
    plan
}

/// Saving a task: store it in the repository, then clear the cached list.
pub fn save(task: Task) -> (plan: Vec<Change>)
    ensures
        plan@ == save_plan(task),
{
    let mut plan = Vec::new();
    plan.push(Change::Store(task));
    plan.push(Change::Evict);
    plan
}

/// Where a single task is read from.
pub enum TaskSource {
    /// The repository, by id.
    Repository(i32),
}

/// Reading one task goes to the repository, never to the cache.
pub fn get(id: i32) -> (r: TaskSource)
    ensures
        r == TaskSource::Repository(id),
{
    TaskSource::Repository(id)
}

/// The model world after a plan of changes; `effect` is what the
/// repository makes of its list for a `Remove` or `Store`.
pub open spec fn apply_changes<L>(w: CacheWorld<L>, plan: Seq<Change>, effect: spec_fn(L, Change) -> L) -> CacheWorld<L>
    decreases plan.len(),
{
    if plan.len() == 0 {
        w
    } else {
        let c = plan[0];
        let w2 = match c {
            Change::Evict => CacheWorld { rows: w.rows, cached: None },
            _ => CacheWorld { rows: effect(w.rows, c), cached: w.cached },
        };
        apply_changes(w2, plan.drop_first(), effect)
    }
}

/// Listing reads through the cache: when the cache is empty or holds the
/// repository's list, a listing returns the repository's list and leaves
/// that list cached and the repository untouched.
pub proof fn lemma_list_reads_through<L>(w: CacheWorld<L>)
    requires
        coherent(w),
    ensures
        list_outcome(w) == (CacheWorld { rows: w.rows, cached: Some(w.rows) }, Step::Return(w.rows)),
{
    reveal_with_fuel(list_run, 5);
}

/// Two listings with no change between them give the same list, whatever
/// the cache held before the first: a listing always completes in the model
/// world, and it leaves its own result cached.
pub proof fn lemma_listings_agree<L>(w: CacheWorld<L>)
    ensures
        list_outcome(w).1 is Return,
        list_outcome(w).0.rows == w.rows,
        list_outcome(w).0.cached == Some(list_outcome(w).1->Return_0),
        list_outcome(list_outcome(w).0).1 == list_outcome(w).1,
{
    reveal_with_fuel(list_run, 5);
}

/// After deleting a task, whatever the cache held before, the cached list
/// is gone and the next listing returns the repository's list as the
/// deletion left it.
pub proof fn lemma_list_after_delete<L>(w: CacheWorld<L>, id: i32, effect: spec_fn(L, Change) -> L)
    ensures
        apply_changes(w, delete_plan(id), effect).cached is None,
        list_outcome(apply_changes(w, delete_plan(id), effect)).1 == Step::Return(effect(w.rows, Change::Remove(id))),
{
    reveal_with_fuel(apply_changes, 3);
    let w2 = apply_changes(w, delete_plan(id), effect);
    assert(delete_plan(id).drop_first().drop_first() =~= Seq::<Change>::empty());
    lemma_list_reads_through(w2);
}

/// After saving a task, whatever the cache held before, the cached list is
/// gone and the next listing returns the repository's list as the save left
/// it.
pub proof fn lemma_list_after_save<L>(w: CacheWorld<L>, task: Task, effect: spec_fn(L, Change) -> L)
    ensures
        apply_changes(w, save_plan(task), effect).cached is None,
        list_outcome(apply_changes(w, save_plan(task), effect)).1 == Step::Return(effect(w.rows, Change::Store(task))),
{
    reveal_with_fuel(apply_changes, 3);
    let w2 = apply_changes(w, save_plan(task), effect);
    assert(save_plan(task).drop_first().drop_first() =~= Seq::<Change>::empty());
    lemma_list_reads_through(w2);
}

} // verus!
