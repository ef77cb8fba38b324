//! Tasks and their assignments to users.

use vstd::prelude::*;
use chrono::NaiveDateTime;

verus! {

/// A task, written by the user `author_id`.
pub struct Task {
    pub id: i32,
    pub title: String,
    pub description: String,
    pub author_id: i32,
    pub created_at: NaiveDateTime,
    pub updated_at: NaiveDateTime,
}

/// A slot of work on task `task_id`, optionally given to user `user_id`.
pub struct TaskAssignment {
    pub id: i32,
    pub task_id: i32,
    pub user_id: Option<i32>,
    pub start_time: NaiveDateTime,
    pub duration: i32,
    pub completed: bool,
    pub urgent: bool,
    pub created_at: NaiveDateTime,
    pub updated_at: NaiveDateTime,
}

} // verus!
