use vstd::prelude::*;
use crate::edit_todo::{fresh_form, submitted, EditAction, EditSelection, EditView, DEFAULT_PRIORITY};
use crate::event::{Bounds, Event, KeyCode, KeyEvent, Request, RequestView};
use crate::nav::{step, Content, Direction, Widget};
use crate::state::{cursor_next, cursor_previous, selected_id, AppState, AppView};
use crate::text::without_last;
use crate::utils::alert;

verus! {

/// The advisory shown when an action needs a selected task and none is.
pub const NO_SELECTION: &'static str = "No valid todo item selected.";

/// The direction of an arrow key.
pub open spec fn arrow(code: KeyCode) -> Option<Direction> {
    match code {
        KeyCode::Up => Some(Direction::Up),
        KeyCode::Down => Some(Direction::Down),
        KeyCode::Left => Some(Direction::Left),
        KeyCode::Right => Some(Direction::Right),
        _ => None,
    }
}

/// The direction of an arrow key or of `k`, `j`, `h`, `l`.
pub open spec fn motion(code: KeyCode) -> Option<Direction> {
    match code {
        KeyCode::Char(c) => if c == 'k' {
            Some(Direction::Up)
        } else if c == 'j' {
            Some(Direction::Down)
        } else if c == 'h' {
            Some(Direction::Left)
        } else if c == 'l' {
            Some(Direction::Right)
        } else {
            None
        },
        _ => arrow(code),
    }
}

/// Focus moved in direction `d`, if there is one.
pub open spec fn moved(s: AppView, d: Option<Direction>) -> AppView {
    match d {
        Some(d) => AppView { focus: step(s.focus, d), ..s },
        None => s,
    }
}

fn move_focus(app: &mut AppState, d: Direction)
    ensures
        final(app)@ == moved(old(app)@, Some(d)),
{
    app.focused_widget = app.focused_widget.go(d);
}

fn arrow_of(code: KeyCode) -> (r: Option<Direction>)
    ensures
        r == arrow(code),
{
    match code {
        KeyCode::Up => Some(Direction::Up),
        KeyCode::Down => Some(Direction::Down),
        KeyCode::Left => Some(Direction::Left),
        KeyCode::Right => Some(Direction::Right),
        _ => None,
    }
}

fn motion_of(code: KeyCode) -> (r: Option<Direction>)
    ensures
        r == motion(code),
{
    match code {
        KeyCode::Char(c) => if c == 'k' {
            Some(Direction::Up)
        } else if c == 'j' {
            Some(Direction::Down)
        } else if c == 'h' {
            Some(Direction::Left)
        } else if c == 'l' {
            Some(Direction::Right)
        } else {
            None
        },
        _ => arrow_of(code),
    }
}

// ---------------------------------------------------------------- search box

/// The state after a key in the search box.
pub open spec fn search_step(s: AppView, k: KeyEvent) -> AppView {
    match k.code {
        KeyCode::Esc => AppView { focus: Widget::Main, content: Content::Daylist, ..s },
        KeyCode::Char(c) => AppView { search: s.search.push(c), ..s },
        KeyCode::Backspace => AppView { search: without_last(s.search), ..s },
        _ => moved(s, arrow(k.code)),
    }
}

/// The request after a key in the search box: Enter searches for the text
/// typed so far, which stays in the box.
pub open spec fn search_request(s: AppView, k: KeyEvent) -> RequestView {
    match k.code {
        KeyCode::Enter => RequestView::Search(s.search),
        _ => RequestView::Nothing,
    }
}

pub fn search_events(key: KeyEvent, app: &mut AppState) -> (r: Request)
    ensures
        final(app)@ == search_step(old(app)@, key),
        r@ == search_request(old(app)@, key),
{
    match key.code {
        KeyCode::Esc => {
            app.focused_widget = Widget::Main;
            app.main_content_shown = Content::Daylist;
            Request::Nothing
        },
        KeyCode::Char(c) => {
            app.search_string.push(c);
            Request::Nothing
        },
        KeyCode::Backspace => {
            app.search_string.pop();
            Request::Nothing
        },
        KeyCode::Enter => Request::Search(app.search_string.clone()),
        _ => {
            if let Some(d) = arrow_of(key.code) {
                move_focus(app, d);
            }
            Request::Nothing
        },
    }
}

// --------------------------------------------------------- regions elsewhere

/// The state after a key in a panel without handling of its own: `q`, `Q`
/// and Esc stop the program, the motion keys move focus.
pub open spec fn default_step(s: AppView, k: KeyEvent) -> AppView {
    match k.code {
        KeyCode::Esc => AppView { running: false, ..s },
        KeyCode::Char(c) => if c == 'q' || c == 'Q' {
            AppView { running: false, ..s }
        } else {
            moved(s, motion(k.code))
        },
        _ => moved(s, motion(k.code)),
    }
}

pub fn default_events(key: KeyEvent, app: &mut AppState)
    ensures
        final(app)@ == default_step(old(app)@, key),
{
    match key.code {
        KeyCode::Esc => app.exit(),
        KeyCode::Char(c) if c == 'q' || c == 'Q' => app.exit(),
        _ => {
            if let Some(d) = motion_of(key.code) {
                move_focus(app, d);
            }
        },
    }
}

// ----------------------------------------------------------------- task list

/// The state after a key in the task list.
pub open spec fn list_step(s: AppView, k: KeyEvent) -> AppView {
    match k.code {
        KeyCode::Esc => AppView { content: Content::Daylist, ..s },
        KeyCode::Tab => AppView {
            selected: if k.shift {
                cursor_previous(s.selected, s.todos.len())
            } else {
                cursor_next(s.selected, s.todos.len())
            },
            ..s
        },
        KeyCode::Char(c) => if c == 'q' || c == 'Q' {
            AppView { running: false, ..s }
        } else if c == 'n' {
            AppView {
                action: EditAction::Create,
                focus: Widget::EditTodo,
                content: Content::EditTodo,
                edit: fresh_form(),
                ..s
            }
        } else if c == 'e' {
            AppView {
                action: EditAction::Update,
                focus: Widget::EditTodo,
                content: Content::EditTodo,
                ..s
            }
        } else if c == 'L' || c == 'd' || c == 'X' {
            s
        } else {
            moved(s, motion(k.code))
        },
        _ => moved(s, arrow(k.code)),
    }
}

/// The request after a key in the task list: `L` fetches the list again,
/// `d` flips and `X` deletes the selected task, or advises that none is
/// selected.
pub open spec fn list_request(s: AppView, k: KeyEvent) -> RequestView {
    match k.code {
        KeyCode::Char(c) => if c == 'L' {
            RequestView::Reload
        } else if c == 'd' {
            match selected_id(s.todos, s.selected) {
                Some(id) => RequestView::Toggle(id),
                None => RequestView::Advise(NO_SELECTION@),
            }
        } else if c == 'X' {
            match selected_id(s.todos, s.selected) {
                Some(id) => RequestView::Delete(id),
                None => RequestView::Advise(NO_SELECTION@),
            }
        } else {
            RequestView::Nothing
        },
        _ => RequestView::Nothing,
    }
}

pub fn list_events(key: KeyEvent, app: &mut AppState) -> (r: Request)
    requires
        old(app)@.wf(),
    ensures
        final(app)@ == list_step(old(app)@, key),
        r@ == list_request(old(app)@, key),
        final(app)@.wf(),
{
    match key.code {
        KeyCode::Esc => {
            app.main_content_shown = Content::Daylist;
            Request::Nothing
        },
        KeyCode::Tab => {
            if key.shift {
                app.todo_list.previous();
            } else {
                app.todo_list.next();
            }
            Request::Nothing
        },
        KeyCode::Char(c) if c == 'q' || c == 'Q' => {
            app.exit();
            Request::Nothing
        },
        KeyCode::Char('n') => {
            app.edit_action = EditAction::Create;
            app.focused_widget = Widget::EditTodo;
            app.main_content_shown = Content::EditTodo;
            app.edit.reset();
            Request::Nothing
        },
        KeyCode::Char('e') => {
            app.edit_action = EditAction::Update;
            app.focused_widget = Widget::EditTodo;
            app.main_content_shown = Content::EditTodo;
            Request::Nothing
        },
        KeyCode::Char('L') => Request::Reload,
        KeyCode::Char('d') => match app.todo_list.get_selected_id() {
            Some(id) => Request::Toggle(id),
            None => alert(NO_SELECTION),
        },
        KeyCode::Char('X') => match app.todo_list.get_selected_id() {
            Some(id) => Request::Delete(id),
            None => alert(NO_SELECTION),
        },
        _ => {
            if let Some(d) = motion_of(key.code) {
                move_focus(app, d);
            }
            Request::Nothing
        },
    }
}

// ----------------------------------------------------------------- edit form

/// The field after `f`; the priority is the last field and has none.
pub open spec fn next_field(f: EditSelection) -> EditSelection {
    match f {
        EditSelection::Name => EditSelection::Description,
        EditSelection::Description => EditSelection::DateDue,
        EditSelection::DateDue => EditSelection::ReminderDate,
        _ => EditSelection::Priority,
    }
}

/// The priority chosen by a character: a digit from 1 to 9 is its value,
/// anything else the default.
pub open spec fn priority_key(c: char) -> i64 {
    if '1' <= c <= '9' {
        (c as u32 - '0' as u32) as i64
    } else {
        DEFAULT_PRIORITY
    }
}

/// The form after typing `c` into its current field.
pub open spec fn typed(e: EditView, c: char) -> EditView {
    match e.selection {
        EditSelection::Name => EditView { name: e.name.push(c), ..e },
        EditSelection::Description => EditView { description: e.description.push(c), ..e },
        EditSelection::DateDue => EditView { date_due: e.date_due.push(c), ..e },
        EditSelection::ReminderDate => EditView { reminder_date: e.reminder_date.push(c), ..e },
        EditSelection::Priority => EditView { priority: priority_key(c), ..e },
    }
}

/// The form after Backspace: the current field loses its last character,
/// and the priority becomes 0, which marks it unset.
pub open spec fn erased(e: EditView) -> EditView {
    match e.selection {
        EditSelection::Name => EditView { name: without_last(e.name), ..e },
        EditSelection::Description => EditView { description: without_last(e.description), ..e },
        EditSelection::DateDue => EditView { date_due: without_last(e.date_due), ..e },
        EditSelection::ReminderDate => EditView { reminder_date: without_last(e.reminder_date), ..e },
        EditSelection::Priority => EditView { priority: 0, ..e },
    }
}

/// The state after a key in the edit form. Enter moves to the next field;
/// on the last field it submits, which empties the form and goes back to the
/// task list, as Esc does without submitting.
pub open spec fn edit_step(s: AppView, k: KeyEvent) -> AppView {
    match k.code {
        KeyCode::Esc => AppView {
            edit: fresh_form(),
            content: Content::Daylist,
            focus: Widget::Main,
            ..s
        },
        KeyCode::Backspace => AppView { edit: erased(s.edit), ..s },
        KeyCode::Enter => if s.edit.selection == EditSelection::Priority {
            AppView { edit: fresh_form(), content: Content::Daylist, focus: Widget::Main, ..s }
        } else {
            AppView { edit: EditView { selection: next_field(s.edit.selection), ..s.edit }, ..s }
        },
        KeyCode::Char(c) => AppView { edit: typed(s.edit, c), ..s },
        _ => moved(s, arrow(k.code)),
    }
}

/// The request after a key in the edit form: Enter on the last field stores
/// the task that the form describes, as a new task or as a change, by the
/// edit action.
pub open spec fn edit_request(s: AppView, k: KeyEvent) -> RequestView {
    if k.code == KeyCode::Enter && s.edit.selection == EditSelection::Priority {
        match s.action {
            EditAction::Create => RequestView::Create(submitted(s.edit)),
            EditAction::Update => RequestView::Update(submitted(s.edit)),
        }
    } else {
        RequestView::Nothing
    }
}

pub fn edit_events(key: KeyEvent, app: &mut AppState) -> (r: Request)
    ensures
        final(app)@ == edit_step(old(app)@, key),
        r@ == edit_request(old(app)@, key),
{
    match key.code {
        KeyCode::Esc => {
            app.main_content_shown = Content::Daylist;
            app.focused_widget = Widget::Main;
            app.edit.reset();
            Request::Nothing
        },
        KeyCode::Backspace => {
            match app.edit.selection {
                EditSelection::Name => {
                    app.edit.name.pop();
                },
                EditSelection::Description => {
                    app.edit.description.pop();
                },
                EditSelection::DateDue => {
                    app.edit.date_due.pop();
                },
                EditSelection::ReminderDate => {
                    app.edit.reminder_date.pop();
                },
                EditSelection::Priority => {
                    app.edit.priority = 0;
                },
            }
            Request::Nothing
        },
        KeyCode::Enter => match app.edit.selection {
            EditSelection::Name => {
                app.edit.selection = EditSelection::Description;
                Request::Nothing
            },
            EditSelection::Description => {
                app.edit.selection = EditSelection::DateDue;
                Request::Nothing
            },
            EditSelection::DateDue => {
                app.edit.selection = EditSelection::ReminderDate;
                Request::Nothing
            },
            EditSelection::ReminderDate => {
                app.edit.selection = EditSelection::Priority;
                Request::Nothing
            },
            EditSelection::Priority => {
                let r = match app.edit_action {
                    EditAction::Create => Request::Create(app.edit.new_todo()),
                    EditAction::Update => Request::Update(app.edit.update_todo()),
                };
                app.main_content_shown = Content::Daylist;
                app.focused_widget = Widget::Main;
                r
            },
        },
        KeyCode::Char(c) => {
            match app.edit.selection {
                EditSelection::Name => app.edit.name.push(c),
                EditSelection::Description => app.edit.description.push(c),
                EditSelection::DateDue => app.edit.date_due.push(c),
                EditSelection::ReminderDate => app.edit.reminder_date.push(c),
                EditSelection::Priority => {
                    app.edit.priority = if '1' <= c && c <= '9' {
                        (c as u32 - '0' as u32) as i64
                    } else {
                        DEFAULT_PRIORITY
                    };
                },
            }
            Request::Nothing
        },
        _ => {
            if let Some(d) = arrow_of(key.code) {
                move_focus(app, d);
            }
            Request::Nothing
        },
    }
}

// ---------------------------------------------------------------- dispatcher

/// The state after a click: on the search box or the task list, focus goes
/// there.
pub open spec fn click_step(s: AppView, column: int, row: int, search: Bounds, main: Bounds) -> AppView {
    if main.holds(column, row) {
        AppView { focus: Widget::Main, ..s }
    } else if search.holds(column, row) {
        AppView { focus: Widget::Search, ..s }
    } else {
        s
    }
}

/// The state after any event. A key goes to the handler of the focused
/// region; `search` and `main` are where the search box and the task list
/// were last drawn.
pub open spec fn dispatch_step(s: AppView, ev: Event, search: Bounds, main: Bounds) -> AppView {
    match ev {
        Event::Key(k) => match s.focus {
            Widget::Search => search_step(s, k),
            Widget::Main => list_step(s, k),
            Widget::EditTodo => edit_step(s, k),
            _ => default_step(s, k),
        },
        Event::Click { column, row } => click_step(s, column as int, row as int, search, main),
        _ => s,
    }
}

/// The request after any event.
pub open spec fn dispatch_request(s: AppView, ev: Event) -> RequestView {
    match ev {
        Event::Key(k) => match s.focus {
            Widget::Search => search_request(s, k),
            Widget::Main => list_request(s, k),
            Widget::EditTodo => edit_request(s, k),
            _ => RequestView::Nothing,
        },
        _ => RequestView::Nothing,
    }
}

/// Handles one event and says which data request the caller must perform.
pub fn dispatch(event: Event, app: &mut AppState, search: &Bounds, main: &Bounds) -> (r: Request)
    requires
        old(app)@.wf(),
    ensures
        final(app)@ == dispatch_step(old(app)@, event, *search, *main),
        r@ == dispatch_request(old(app)@, event),
        final(app)@.wf(),
{
    match event {
        Event::Key(key) => match app.focused_widget {
            Widget::Search => search_events(key, app),
            Widget::Main => list_events(key, app),
            Widget::EditTodo => edit_events(key, app),
            _ => {
                default_events(key, app);
                Request::Nothing
            },
        },
        Event::Click { column, row } => {
            if main.contains(column, row) {
                app.focused_widget = Widget::Main;
            } else if search.contains(column, row) {
                app.focused_widget = Widget::Search;
            }
            Request::Nothing
        },
        _ => Request::Nothing,
    }
}

/// The position of a field in the form.
pub open spec fn field_rank(f: EditSelection) -> int {
    match f {
        EditSelection::Name => 0,
        EditSelection::Description => 1,
        EditSelection::DateDue => 2,
        EditSelection::ReminderDate => 3,
        EditSelection::Priority => 4,
    }
}

/// The state after `n` presses of the same key in the edit form.
pub open spec fn edit_presses(s: AppView, k: KeyEvent, n: nat) -> AppView
    decreases n,
{
    if n == 0 {
        s
    } else {
        edit_presses(edit_step(s, k), k, (n - 1) as nat)
    }
}

/// Enter walks the fields of the form strictly forward, one at a time, and
/// touches no text. From the first field, four presses reach the priority,
/// none of them asks for anything, and the fifth submits the form and
/// starts over on an empty one.
pub proof fn lemma_enter_walks_fields(s: AppView, k: KeyEvent)
    requires
        k.code == KeyCode::Enter,
    ensures
        s.edit.selection != EditSelection::Priority ==> {
            &&& field_rank(edit_step(s, k).edit.selection) == field_rank(s.edit.selection) + 1
            &&& edit_step(s, k).edit == (EditView { selection: edit_step(s, k).edit.selection, ..s.edit })
            &&& edit_request(s, k) == RequestView::Nothing
        },
        s.edit.selection == EditSelection::Name ==> {
            let s4 = edit_presses(s, k, 4);
            &&& s4.edit == (EditView { selection: EditSelection::Priority, ..s.edit })
            &&& s4.action == s.action
            &&& forall|i: nat| i < 4 ==> edit_request(#[trigger] edit_presses(s, k, i), k) == RequestView::Nothing
            &&& edit_request(s4, k) == match s.action {
                EditAction::Create => RequestView::Create(submitted(s4.edit)),
                EditAction::Update => RequestView::Update(submitted(s4.edit)),
            }
            &&& edit_step(s4, k).edit == fresh_form()
            &&& edit_step(s4, k).content == Content::Daylist
            &&& edit_step(s4, k).focus == Widget::Main
        },
{
    reveal_with_fuel(edit_presses, 5);
    if s.edit.selection == EditSelection::Name {
        let s1 = edit_step(s, k);
        let s2 = edit_step(s1, k);
        let s3 = edit_step(s2, k);
        assert(edit_presses(s, k, 1) == s1);
        assert(edit_presses(s, k, 2) == s2);
        assert(edit_presses(s, k, 3) == s3);
        assert(edit_presses(s, k, 4) == edit_step(s3, k));
        assert forall|i: nat| i < 4 implies edit_request(#[trigger] edit_presses(s, k, i), k)
            == RequestView::Nothing by {
            if i == 0 {
            } else if i == 1 {
            } else if i == 2 {
            } else {
            }
        }
    }
}

/// On the priority field a digit from 1 to 9 sets the priority to its value,
/// any other character sets it to the default, and Backspace unsets it (0);
/// the other fields stay as they are.
pub proof fn lemma_priority_keys(s: AppView, c: char, shift: bool)
    requires
        s.edit.selection == EditSelection::Priority,
    ensures
        edit_step(s, KeyEvent { code: KeyCode::Char(c), shift }).edit == (EditView {
            priority: if '1' <= c <= '9' {
                (c as u32 - '0' as u32) as i64
            } else {
                DEFAULT_PRIORITY
            },
            ..s.edit
        }),
        edit_step(s, KeyEvent { code: KeyCode::Backspace, shift }).edit == (EditView {
            priority: 0,
            ..s.edit
        }),
        c == '5' ==> edit_step(s, KeyEvent { code: KeyCode::Char(c), shift }).edit.priority == 5,
        c == 'x' ==> edit_step(s, KeyEvent { code: KeyCode::Char(c), shift }).edit.priority == 4,
{
}

} // verus!
