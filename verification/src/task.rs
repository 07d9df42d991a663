//! The task record and its mathematical model.

use vstd::prelude::*;

verus! {

/// Model of a stored task: each field as a plain mathematical value.
/// `category` and `content` are optional; absence means the column is unset,
/// not that it holds an empty string.
pub ghost struct TaskView {
    pub id: Seq<char>,
    pub title: Seq<char>,
    pub category: Option<Seq<char>>,
    pub content: Option<Seq<char>>,
    pub done: bool,
    pub created_at: Seq<char>,
}

/// A task record as callers exchange it with the store.
///
/// `id` is the caller-supplied primary key; `created_at` is the sort key of
/// [`crate::store::load_tasks`]. Neither can be changed once the record is
/// stored.
#[derive(Clone, Debug)]
pub struct Task {
    pub id: String,
    pub title: String,
    pub category: Option<String>,
    pub content: Option<String>,
    pub done: bool,
    pub created_at: String,
}

/// The model of an optional string field.
pub open spec fn opt_view(s: Option<String>) -> Option<Seq<char>> {
    match s {
        Some(x) => Some(x@),
        None => None,
    }
}

/// The model of an optional borrowed string, as a patch supplies it.
pub open spec fn opt_str_view(s: Option<&str>) -> Option<Seq<char>> {
    match s {
        Some(x) => Some(x@),
        None => None,
    }
}

impl View for Task {
    type V = TaskView;

    open spec fn view(&self) -> TaskView {
        TaskView {
            id: self.id@,
            title: self.title@,
            category: opt_view(self.category),
            content: opt_view(self.content),
            done: self.done,
            created_at: self.created_at@,
        }
    }
}

/// One row of the task table as its six column values come back from the
/// engine: the `done` column is the stored integer, not yet a flag.
pub struct TaskRow {
    pub id: String,
    pub title: String,
    pub category: Option<String>,
    pub content: Option<String>,
    pub done: i64,
    pub created_at: String,
}

impl TaskRow {
    /// The task this row stands for; any stored value other than zero in the
    /// `done` column means done.
    pub open spec fn task_view(self) -> TaskView {
        TaskView {
            id: self.id@,
            title: self.title@,
            category: opt_view(self.category),
            content: opt_view(self.content),
            done: self.done != 0,
            created_at: self.created_at@,
        }
    }

    /// Packs six column values into a row, changing none of them.
    pub fn new(
        id: String,
        title: String,
        category: Option<String>,
        content: Option<String>,
        done: i64,
        created_at: String,
    ) -> (r: TaskRow)
        ensures
            r == (TaskRow { id, title, category, content, done, created_at }),
    {
        TaskRow { id, title, category, content, done, created_at }
    }
}

impl View for TaskRow {
    type V = TaskView;

    open spec fn view(&self) -> TaskView {
        self.task_view()
    }
}

impl Task {
    /// Builds the task a stored row stands for.
    pub fn from_row(row: &TaskRow) -> (t: Task)
        ensures
            t@ == row.task_view(),
    {
        Task {
            id: row.id.clone(),
            title: row.title.clone(),
            category: clone_opt(&row.category),
            content: clone_opt(&row.content),
            done: row.done != 0,
            created_at: row.created_at.clone(),
        }
    }
}

/// Copies an optional string, keeping presence and value.
pub fn clone_opt(s: &Option<String>) -> (r: Option<String>)
    ensures
        opt_view(r) == opt_view(*s),
{
    match s {
        Some(x) => Some(x.clone()),
        None => None,
    }
}

} // verus!
