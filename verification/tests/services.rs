use rust_web_demo::cache::{CacheCommand, CacheEvent, Step};
use rust_web_demo::models::Task;
use rust_web_demo::repository::{find_cached_list, find_cached_list_step};
use rust_web_demo::services::task::{cache_key, delete, get, list, list_step, save, Change, TaskSource};

/// A cache and repository kept in memory, answering the commands the way
/// the real ones do.
struct World {
    rows: Vec<i32>,
    cached: Option<Vec<i32>>,
    log: Vec<&'static str>,
}

impl World {
    fn answer(&mut self, c: CacheCommand<Vec<i32>>) -> CacheEvent<Vec<i32>> {
        match c {
            CacheCommand::Read => {
                self.log.push("read");
                match &self.cached {
                    Some(l) => CacheEvent::Hit(l.clone()),
                    None => CacheEvent::Miss,
                }
            }
            CacheCommand::Write(l) => {
                self.log.push("write");
                self.cached = Some(l);
                CacheEvent::Written(true)
            }
            CacheCommand::Evict => {
                self.log.push("evict");
                self.cached = None;
                CacheEvent::Evicted
            }
            CacheCommand::Load => {
                self.log.push("load");
                CacheEvent::Loaded(self.rows.clone())
            }
        }
    }

    fn list(&mut self) -> Option<Vec<i32>> {
        let (mut phase, mut step) = list::<Vec<i32>>();
        loop {
            match step {
                Step::Perform(c) => {
                    let e = self.answer(c);
                    let next = list_step(phase, e);
                    phase = next.0;
                    step = next.1;
                }
                Step::Return(l) => return Some(l),
                Step::CacheThenReturn(l) => {
                    self.cached = Some(l.clone());
                    return Some(l);
                }
                Step::Fail => return None,
            }
        }
    }

    fn cached_query(&mut self) -> Option<Vec<i32>> {
        let (mut phase, mut step) = find_cached_list::<Vec<i32>>();
        loop {
            match step {
                Step::Perform(c) => {
                    let e = self.answer(c);
                    let next = find_cached_list_step(phase, e);
                    phase = next.0;
                    step = next.1;
                }
                Step::Return(l) => return Some(l),
                Step::CacheThenReturn(l) => {
                    self.log.push("write");
                    self.cached = Some(l.clone());
                    return Some(l);
                }
                Step::Fail => return None,
            }
        }
    }
}

#[test]
fn task_list_key() {
    assert_eq!(cache_key(), "task_list");
}

#[test]
fn list_loads_and_caches_on_a_miss() {
    let mut w = World { rows: vec![1, 2], cached: None, log: vec![] };
    assert_eq!(w.list(), Some(vec![1, 2]));
    assert_eq!(w.cached, Some(vec![1, 2]));
    assert_eq!(w.log, vec!["read", "load", "write", "read"]);
}

#[test]
fn list_uses_the_cache_on_a_hit() {
    let mut w = World { rows: vec![1, 2], cached: Some(vec![7]), log: vec![] };
    assert_eq!(w.list(), Some(vec![7]));
    assert_eq!(w.log, vec!["read"]);
}

#[test]
fn list_fails_when_the_cache_loses_the_write() {
    let (phase, _) = list::<Vec<i32>>();
    let (phase, _) = list_step(phase, CacheEvent::<Vec<i32>>::Miss);
    let (phase, _) = list_step(phase, CacheEvent::Loaded(vec![3]));
    let (phase, s) = list_step(phase, CacheEvent::<Vec<i32>>::Written(false));
    assert!(matches!(s, Step::Perform(CacheCommand::Read)));
    let (_, s) = list_step(phase, CacheEvent::<Vec<i32>>::Miss);
    assert!(matches!(s, Step::Fail));
}

#[test]
fn list_fails_on_an_unexpected_event() {
    let (phase, _) = list::<Vec<i32>>();
    let (_, s) = list_step(phase, CacheEvent::<Vec<i32>>::Evicted);
    assert!(matches!(s, Step::Fail));
}

#[test]
fn changes_clear_the_cached_list() {
    let plan = delete(5);
    assert_eq!(plan.len(), 2);
    assert!(matches!(plan[0], Change::Remove(5)));
    assert!(matches!(plan[1], Change::Evict));
    let plan = save(Task { id: 9, ..Default::default() });
    assert!(matches!(&plan[0], Change::Store(t) if t.id == 9));
    assert!(matches!(plan[1], Change::Evict));
}

#[test]
fn listing_after_a_change_sees_the_change() {
    let mut w = World { rows: vec![1, 2], cached: None, log: vec![] };
    assert_eq!(w.list(), Some(vec![1, 2]));
    for change in delete(2) {
        match change {
            Change::Remove(id) => w.rows.retain(|r| *r != id),
            Change::Store(_) => unreachable!(),
            Change::Evict => w.cached = None,
        }
    }
    assert_eq!(w.list(), Some(vec![1]));
}

#[test]
fn single_tasks_come_from_the_repository() {
    assert!(matches!(get(3), TaskSource::Repository(3)));
}

#[test]
fn cached_query_on_a_miss() {
    let mut w = World { rows: vec![4], cached: None, log: vec![] };
    assert_eq!(w.cached_query(), Some(vec![4]));
    assert_eq!(w.cached, Some(vec![4]));
    assert_eq!(w.log, vec!["read", "evict", "load", "write"]);
}

#[test]
fn cached_query_on_a_hit() {
    let mut w = World { rows: vec![4], cached: Some(vec![4]), log: vec![] };
    assert_eq!(w.cached_query(), Some(vec![4]));
    assert_eq!(w.log, vec!["read"]);
}
