use vstd::prelude::*;
use crate::schema::{Todo, TodoView};
use crate::stamp::{parse_short, parsed_stamp, Stamp};

verus! {

/// The field of the edit form that receives typed characters.
#[derive(Clone, Copy, Debug, PartialEq, Eq, Structural)]
pub enum EditSelection {
    Name,
    Description,
    DateDue,
    ReminderDate,
    Priority,
}

/// What submitting the edit form does: store a new task or change one.
#[derive(Clone, Copy, Debug, PartialEq, Eq, Structural)]
pub enum EditAction {
    Create,
    Update,
}

/// The priority of a fresh form and of a task whose priority is unset.
pub const DEFAULT_PRIORITY: i64 = 4;

/// An edit form in progress.
pub struct EditTodo {
    pub selection: EditSelection,
    pub name: String,
    pub description: String,
    pub date_due: String,
    pub reminder_date: String,
    /// 1 to 9 once chosen; 0 after it was erased.
    pub priority: i64,
}

/// An edit form with its texts as character sequences.
pub struct EditView {
    pub selection: EditSelection,
    pub name: Seq<char>,
    pub description: Seq<char>,
    pub date_due: Seq<char>,
    pub reminder_date: Seq<char>,
    pub priority: i64,
}

impl View for EditTodo {
    type V = EditView;

    open spec fn view(&self) -> EditView {
        EditView {
            selection: self.selection,
            name: self.name@,
            description: self.description@,
            date_due: self.date_due@,
            reminder_date: self.reminder_date@,
            priority: self.priority,
        }
    }
}

/// The empty form, on its first field.
pub open spec fn fresh_form() -> EditView {
    EditView {
        selection: EditSelection::Name,
        name: Seq::empty(),
        description: Seq::empty(),
        date_due: Seq::empty(),
        reminder_date: Seq::empty(),
        priority: DEFAULT_PRIORITY,
    }
}

/// A priority in 1 to 9 is kept; any other value becomes the default.
pub open spec fn normalized_priority(p: i64) -> i64 {
    if 1 <= p <= 9 {
        p
    } else {
        DEFAULT_PRIORITY
    }
}

/// The task that a submitted form describes. Identity, creation time and
/// links are left for the store; an empty description is absent and a date
/// text is read by the date parser.
pub open spec fn submitted(e: EditView) -> TodoView {
    TodoView {
        todo_id: 0,
        title: e.name,
        description: if e.description.len() == 0 {
            None
        } else {
            Some(e.description)
        },
        date_created: None,
        status: 0,
        date_due: parsed_stamp(e.date_due),
        reminder_date: parsed_stamp(e.reminder_date),
        parent_todo: None,
        priority: normalized_priority(e.priority),
        project_id: None,
    }
}

impl Default for EditTodo {
    fn default() -> (r: Self)
        ensures
            r@ == fresh_form(),
    {
        Self::new()
    }
}

impl EditTodo {
    pub fn new() -> (r: EditTodo)
        ensures
            r@ == fresh_form(),
    {
        EditTodo {
            selection: EditSelection::Name,
            name: String::new(),
            description: String::new(),
            date_due: String::new(),
            reminder_date: String::new(),
            priority: DEFAULT_PRIORITY,
        }
    }

    /// Empties the form and goes back to its first field.
    pub fn reset(&mut self)
        ensures
            final(self)@ == fresh_form(),
    {
        self.name = String::new();
        self.description = String::new();
        self.date_due = String::new();
        self.reminder_date = String::new();
        self.priority = DEFAULT_PRIORITY;
        self.selection = EditSelection::Name;
    }

    /// The due date typed so far, if it reads as `DD/MM/YY HH:MM`.
    pub fn parse_due(&self) -> (r: Option<Stamp>)
        ensures
            r == parsed_stamp(self.date_due@),
            r matches Some(t) ==> t.short_form(),
            forall|t: Stamp| t.short_form() && self.date_due@ == t.short_text() ==> r == Some(t),
            !self.date_due@.contains('/') ==> r is None,
    {
        parse_short(self.date_due.as_str())
    }

    /// The reminder date typed so far, if it reads as `DD/MM/YY HH:MM`.
    pub fn parse_reminder(&self) -> (r: Option<Stamp>)
        ensures
            r == parsed_stamp(self.reminder_date@),
            r matches Some(t) ==> t.short_form(),
            forall|t: Stamp| t.short_form() && self.reminder_date@ == t.short_text() ==> r == Some(t),
            !self.reminder_date@.contains('/') ==> r is None,
    {
        parse_short(self.reminder_date.as_str())
    }

    /// The task that the form describes.
    fn to_todo(&self) -> (r: Todo)
        ensures
            r@ == submitted(self@),
    {
        let description = if self.description.as_str().is_empty() {
            None
        } else {
            Some(self.description.clone())
        };
        let priority = if 1 <= self.priority && self.priority <= 9 {
            self.priority
        } else {
            DEFAULT_PRIORITY
        };
        Todo {
            todo_id: 0,
            title: self.name.clone(),
            description,
            date_created: None,
            status: 0,
            date_due: self.parse_due(),
            reminder_date: self.parse_reminder(),
            parent_todo: None,
            priority,
            project_id: None,
        }
    }

    /// Takes the form's contents as a task to store, and empties the form.
    pub fn new_todo(&mut self) -> (r: Todo)
        ensures
            r@ == submitted(old(self)@),
            final(self)@ == fresh_form(),
    {
        let todo = self.to_todo();
        self.reset();
        todo
    }

    /// Takes the form's contents as the new state of a task, and empties the
    /// form.
    pub fn update_todo(&mut self) -> (r: Todo)
        ensures
            r@ == submitted(old(self)@),
            final(self)@ == fresh_form(),
    {
        let todo = self.to_todo();
        self.reset();
        todo
    }
}

} // verus!
