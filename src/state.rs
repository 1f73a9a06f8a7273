use vstd::prelude::*;
use crate::edit_todo::{fresh_form, EditAction, EditTodo, EditView};
use crate::nav::{Content, Widget};
use crate::schema::Todo;

verus! {

/// The cursor after one step forward over `n` items: the first item when
/// nothing is selected, and the first again after the last.
pub open spec fn cursor_next(sel: Option<usize>, n: nat) -> Option<usize> {
    if n == 0 {
        sel
    } else {
        match sel {
            None => Some(0usize),
            Some(i) => if i + 1 >= n {
                Some(0usize)
            } else {
                Some((i + 1) as usize)
            },
        }
    }
}

/// The cursor after one step back over `n` items: the last item when
/// nothing is selected, and the last again before the first.
pub open spec fn cursor_previous(sel: Option<usize>, n: nat) -> Option<usize> {
    if n == 0 {
        sel
    } else {
        match sel {
            None => Some((n - 1) as usize),
            Some(i) => if i == 0 || i >= n {
                Some((n - 1) as usize)
            } else {
                Some((i - 1) as usize)
            },
        }
    }
}

/// The cursor over `n` items after a run of steps, `true` for a step forward
/// and `false` for a step back.
pub open spec fn cursor_walk(sel: Option<usize>, n: nat, steps: Seq<bool>) -> Option<usize>
    decreases steps.len(),
{
    if steps.len() == 0 {
        sel
    } else {
        let after = if steps[0] {
            cursor_next(sel, n)
        } else {
            cursor_previous(sel, n)
        };
        cursor_walk(after, n, steps.drop_first())
    }
}

/// Whatever run of steps is taken over a non-empty list, the cursor ends on
/// an item of the list (unless nothing was selected and no step was taken),
/// and it wraps at both ends.
pub proof fn lemma_cursor_walk(sel: Option<usize>, n: nat, steps: Seq<bool>)
    requires
        0 < n <= usize::MAX,
        sel matches Some(i) ==> i < n,
    ensures
        cursor_walk(sel, n, steps) matches Some(i) ==> i < n,
        steps.len() > 0 ==> cursor_walk(sel, n, steps) is Some,
        cursor_next(Some((n - 1) as usize), n) == Some(0usize),
        cursor_previous(Some(0usize), n) == Some((n - 1) as usize),
        cursor_next(None, n) == Some(0usize),
        cursor_previous(None, n) == Some((n - 1) as usize),
    decreases steps.len(),
{
    if steps.len() > 0 {
        let after = if steps[0] {
            cursor_next(sel, n)
        } else {
            cursor_previous(sel, n)
        };
        lemma_cursor_walk(after, n, steps.drop_first());
    }
}

/// The fetched tasks, with at most one of them selected.
pub struct TodoList {
    pub todos: Vec<Todo>,
    pub selected: Option<usize>,
}

impl TodoList {
    /// The cursor, when set, is on an item of the list.
    pub open spec fn wf(&self) -> bool {
        self.selected matches Some(i) ==> i < self.todos@.len()
    }

    pub fn new(todos: Vec<Todo>) -> (r: TodoList)
        ensures
            r.todos@ == todos@,
            r.selected is None,
            r.wf(),
    {
        TodoList { todos, selected: None }
    }

    /// Installs a new batch of tasks and unsets the cursor.
    pub fn set_todos(&mut self, todos: Vec<Todo>)
        ensures
            final(self).todos@ == todos@,
            final(self).selected is None,
            final(self).wf(),
    {
        self.todos = todos;
        self.selected = None;
    }

    /// Moves the cursor one item forward, wrapping to the first.
    pub fn next(&mut self)
        requires
            old(self).wf(),
        ensures
            final(self).todos@ == old(self).todos@,
            final(self).selected == cursor_next(old(self).selected, old(self).todos@.len()),
            final(self).wf(),
    {
        let n = self.todos.len();
        if n == 0 {
            return;
        }
        let i: usize = match self.selected {
            Some(i) => if i >= n - 1 {
                0
            } else {
                i + 1
            },
            None => 0,
        };
        self.selected = Some(i);
    }

    /// Moves the cursor one item back, wrapping to the last.
    pub fn previous(&mut self)
        requires
            old(self).wf(),
        ensures
            final(self).todos@ == old(self).todos@,
            final(self).selected == cursor_previous(old(self).selected, old(self).todos@.len()),
            final(self).wf(),
    {
        let n = self.todos.len();
        if n == 0 {
            return;
        }
        let i: usize = match self.selected {
            Some(i) => if i == 0 {
                n - 1
            } else {
                i - 1
            },
            None => n - 1,
        };
        self.selected = Some(i);
    }

    /// Unsets the cursor.
    pub fn unselect(&mut self)
        ensures
            final(self).todos@ == old(self).todos@,
            final(self).selected is None,
            final(self).wf(),
    {
        self.selected = None;
    }

    /// The id of the selected task, if one is selected.
    pub fn get_selected_id(&self) -> (r: Option<i64>)
        requires
            self.wf(),
        ensures
            r == selected_id(self.todos@, self.selected),
    {
        match self.selected {
            Some(i) => Some(self.todos[i].todo_id),
            None => None,
        }
    }
}

/// The id of the task under the cursor.
pub open spec fn selected_id(todos: Seq<Todo>, sel: Option<usize>) -> Option<i64> {
    match sel {
        Some(i) => if i < todos.len() {
            Some(todos[i as int].todo_id)
        } else {
            None
        },
        None => None,
    }
}

/// The first page of tasks that the list shows.
pub const DEFAULT_LIMIT: u32 = 10;

/// Everything the interface knows between two events.
pub struct AppState {
    pub running: bool,
    pub todo_list: TodoList,
    pub search_string: String,
    pub search_results: Vec<Todo>,
    pub edit: EditTodo,
    pub edit_action: EditAction,
    pub focused_widget: Widget,
    pub main_content_shown: Content,
    pub todo_items_limit: u32,
    pub todo_items_offset: u32,
    pub upcoming_list: Vec<Todo>,
}

/// The state with its texts as character sequences and its lists as
/// sequences.
pub struct AppView {
    pub running: bool,
    pub todos: Seq<Todo>,
    pub selected: Option<usize>,
    pub search: Seq<char>,
    pub results: Seq<Todo>,
    pub edit: EditView,
    pub action: EditAction,
    pub focus: Widget,
    pub content: Content,
    pub limit: u32,
    pub offset: u32,
    pub upcoming: Seq<Todo>,
}

impl View for AppState {
    type V = AppView;

    open spec fn view(&self) -> AppView {
        AppView {
            running: self.running,
            todos: self.todo_list.todos@,
            selected: self.todo_list.selected,
            search: self.search_string@,
            results: self.search_results@,
            edit: self.edit@,
            action: self.edit_action,
            focus: self.focused_widget,
            content: self.main_content_shown,
            limit: self.todo_items_limit,
            offset: self.todo_items_offset,
            upcoming: self.upcoming_list@,
        }
    }
}

impl AppView {
    /// The cursor, when set, is on a task of the list.
    pub open spec fn wf(&self) -> bool {
        self.selected matches Some(i) ==> i < self.todos.len()
    }
}

/// The state at start-up, before any task is fetched.
pub open spec fn initial_view() -> AppView {
    AppView {
        running: true,
        todos: Seq::empty(),
        selected: None,
        search: Seq::empty(),
        results: Seq::empty(),
        edit: fresh_form(),
        action: EditAction::Create,
        focus: Widget::Main,
        content: Content::Daylist,
        limit: DEFAULT_LIMIT,
        offset: 0,
        upcoming: Seq::empty(),
    }
}

impl AppState {
    pub fn init() -> (r: AppState)
        ensures
            r@ == initial_view(),
    {
        AppState {
            running: true,
            todo_list: TodoList::new(Vec::new()),
            search_string: String::new(),
            search_results: Vec::new(),
            edit: EditTodo::new(),
            edit_action: EditAction::Create,
            focused_widget: Widget::Main,
            main_content_shown: Content::Daylist,
            todo_items_limit: DEFAULT_LIMIT,
            todo_items_offset: 0,
            upcoming_list: Vec::new(),
        }
    }

    pub fn is_running(&self) -> (r: bool)
        ensures
            r == self.running,
    {
        self.running
    }

    /// Stops the run loop after the current event.
    pub fn exit(&mut self)
        ensures
            final(self)@ == (AppView { running: false, ..old(self)@ }),
    {
        self.running = false;
    }

    /// The due date typed into the edit form, if it reads as a date.
    pub fn parse_due(&self) -> (r: Option<crate::stamp::Stamp>)
        ensures
            r == crate::stamp::parsed_stamp(self.edit.date_due@),
    {
        self.edit.parse_due()
    }

    /// The reminder date typed into the edit form, if it reads as a date.
    pub fn parse_reminder(&self) -> (r: Option<crate::stamp::Stamp>)
        ensures
            r == crate::stamp::parsed_stamp(self.edit.reminder_date@),
    {
        self.edit.parse_reminder()
    }

    /// Shows the results of a search in the main area.
    pub fn show_search_results(&mut self, results: Vec<Todo>)
        ensures
            final(self)@ == (AppView { results: results@, content: Content::SearchResults, ..old(self)@ }),
    {
        self.search_results = results;
        self.main_content_shown = Content::SearchResults;
    }
}

} // verus!
