use vstd::prelude::*;
use vstd::string::StringExecFns;
use crate::stamp::{write_long, Stamp};
use crate::text::{decimal, push_decimal};

verus! {

/// One stored task.
pub struct Todo {
    pub todo_id: i64,
    pub title: String,
    pub description: Option<String>,
    pub date_created: Option<Stamp>,
    /// 1 when the task is done, 0 when it is open.
    pub status: i8,
    pub date_due: Option<Stamp>,
    pub reminder_date: Option<Stamp>,
    pub parent_todo: Option<i64>,
    pub priority: i64,
    pub project_id: Option<i64>,
}

/// A task with its texts as character sequences.
pub struct TodoView {
    pub todo_id: i64,
    pub title: Seq<char>,
    pub description: Option<Seq<char>>,
    pub date_created: Option<Stamp>,
    pub status: i8,
    pub date_due: Option<Stamp>,
    pub reminder_date: Option<Stamp>,
    pub parent_todo: Option<i64>,
    pub priority: i64,
    pub project_id: Option<i64>,
}

pub open spec fn opt_text(s: Option<String>) -> Option<Seq<char>> {
    match s {
        Some(t) => Some(t@),
        None => None,
    }
}

impl View for Todo {
    type V = TodoView;

    open spec fn view(&self) -> TodoView {
        TodoView {
            todo_id: self.todo_id,
            title: self.title@,
            description: opt_text(self.description),
            date_created: self.date_created,
            status: self.status,
            date_due: self.date_due,
            reminder_date: self.reminder_date,
            parent_todo: self.parent_todo,
            priority: self.priority,
            project_id: self.project_id,
        }
    }
}

/// A project that tasks can belong to.
pub struct Project {
    pub project_id: i64,
    pub name: String,
    pub description: Option<String>,
    pub color: Option<String>,
    pub favorite_status: bool,
}

/// A date as the task list shows it: `DD/MM/YYYY HH:MM:SS`, or a note that
/// there is none to show.
pub open spec fn date_text(d: Option<Stamp>) -> Seq<char> {
    match d {
        Some(t) => if t.wf() && 0 <= t.year <= 9999 {
            t.long_text()
        } else {
            "invalid date"@
        },
        None => "invalid date"@,
    }
}

/// A task as the task list shows it: a check box and the title, then the
/// description (`--` when there is none), the reminder date, the due date
/// and the priority, each on an indented line of its own.
pub open spec fn todo_text(t: TodoView) -> Seq<char> {
    "\n   "@ + (if t.status == 1 {
        "[]"@
    } else {
        "[ ]"@
    }) + " "@ + t.title + "\n       "@ + (match t.description {
        Some(d) => d,
        None => "--"@,
    }) + "\n    "@ + date_text(t.reminder_date) + "\n    "@ + date_text(t.date_due) + "\n    "@
        + decimal(t.priority as int) + "\n"@
}

fn push_date(s: &mut String, d: &Option<Stamp>)
    ensures
        final(s)@ == old(s)@ + date_text(*d),
{
    match d {
        Some(t) => if t.is_valid() && 0 <= t.year && t.year <= 9999 {
            s.append(write_long(t).as_str());
        } else {
            s.append("invalid date");
        },
        None => s.append("invalid date"),
    }
}

impl Todo {
    /// The task as the task list shows it.
    pub fn format(&self) -> (r: String)
        ensures
            r@ == todo_text(self@),
    {
        let mut s = String::new();
        s.append("\n   ");
        if self.status == 1 {
            s.append("[]");
        } else {
            s.append("[ ]");
        }
        s.append(" ");
        s.append(self.title.as_str());
        s.append("\n       ");
        match &self.description {
            Some(d) => s.append(d.as_str()),
            None => s.append("--"),
        }
        s.append("\n    ");
        push_date(&mut s, &self.reminder_date);
        s.append("\n    ");
        push_date(&mut s, &self.date_due);
        s.append("\n    ");
        push_decimal(&mut s, self.priority);
        s.append("\n");
        assert(s@ =~= todo_text(self@));
        s
    }
}

} // verus!
