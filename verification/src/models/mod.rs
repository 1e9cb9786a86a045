//! The records the application stores: accounts and tasks.

pub mod time;

use vstd::prelude::*;
use self::time::Time;

verus! {

/// A user account.
#[derive(Default, Debug, Clone)]
pub struct Account {
    pub id: i32,
    pub name: Option<String>,
    pub password: Option<String>,
}

/// A task of the task list.
#[derive(Default, Debug, Clone, PartialEq, Eq)]
pub struct Task {
    pub id: i32,
    pub name: Option<String>,
    pub content: Option<String>,
    pub create_time: Option<Time>,
    pub update_time: Option<Time>,
    /// 0: new, 1: ongoing, 2: finished, 3: canceled.
    pub status: i32,
}

} // verus!
