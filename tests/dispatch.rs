use day_list::edit_todo::{EditAction, EditSelection};
use day_list::event::{Bounds, Event, KeyCode, KeyEvent, Request};
use day_list::handle::{default_events, dispatch, edit_events, list_events, search_events};
use day_list::nav::{Content, Widget};
use day_list::schema::Todo;
use day_list::state::AppState;
use day_list::utils::alert;

fn key(code: KeyCode) -> KeyEvent {
    KeyEvent { code, shift: false }
}

fn ch(c: char) -> Event {
    Event::Key(key(KeyCode::Char(c)))
}

fn press(code: KeyCode) -> Event {
    Event::Key(key(code))
}

fn nowhere() -> Bounds {
    Bounds { x: 0, y: 0, width: 0, height: 0 }
}

fn send(app: &mut AppState, ev: Event) -> Request {
    dispatch(ev, app, &nowhere(), &nowhere())
}

fn task(id: i64) -> Todo {
    Todo {
        todo_id: id,
        title: format!("task {}", id),
        description: None,
        date_created: None,
        status: 0,
        date_due: None,
        reminder_date: None,
        parent_todo: None,
        priority: 4,
        project_id: None,
    }
}

#[test]
fn initial_state() {
    let app = AppState::init();
    assert!(app.is_running());
    assert_eq!(app.focused_widget, Widget::Main);
    assert_eq!(app.main_content_shown, Content::Daylist);
    assert_eq!(app.todo_items_offset, 0);
    assert_eq!(app.todo_items_limit, 10);
    assert!(app.todo_list.todos.is_empty());
    assert_eq!(app.todo_list.selected, None);
}

#[test]
fn create_flow() {
    let mut app = AppState::init();
    assert!(matches!(send(&mut app, ch('n')), Request::Nothing));
    assert_eq!(app.focused_widget, Widget::EditTodo);
    assert_eq!(app.main_content_shown, Content::EditTodo);
    assert_eq!(app.edit_action, EditAction::Create);
    for c in "Buy milk".chars() {
        assert!(matches!(send(&mut app, ch(c)), Request::Nothing));
    }
    for _ in 0..4 {
        assert!(matches!(send(&mut app, press(KeyCode::Enter)), Request::Nothing));
    }
    assert_eq!(app.edit.selection, EditSelection::Priority);
    send(&mut app, ch('3'));
    match send(&mut app, press(KeyCode::Enter)) {
        Request::Create(t) => {
            assert_eq!(t.title, "Buy milk");
            assert_eq!(t.priority, 3);
            assert_eq!(t.description, None);
            assert_eq!(t.date_due, None);
            assert_eq!(t.reminder_date, None);
            assert_eq!(t.parent_todo, None);
            assert_eq!(t.project_id, None);
        }
        _ => panic!("expected a create request"),
    }
    assert_eq!(app.main_content_shown, Content::Daylist);
    assert_eq!(app.focused_widget, Widget::Main);
    assert_eq!(app.edit.selection, EditSelection::Name);
    assert!(app.edit.name.is_empty());
}

#[test]
fn update_flow_asks_for_an_update() {
    let mut app = AppState::init();
    send(&mut app, ch('e'));
    assert_eq!(app.edit_action, EditAction::Update);
    assert_eq!(app.focused_widget, Widget::EditTodo);
    send(&mut app, ch('z'));
    for _ in 0..4 {
        send(&mut app, press(KeyCode::Enter));
    }
    match send(&mut app, press(KeyCode::Enter)) {
        Request::Update(t) => {
            assert_eq!(t.title, "z");
            assert_eq!(t.priority, 4);
        }
        _ => panic!("expected an update request"),
    }
}

#[test]
fn enter_walks_fields_then_submits() {
    let mut app = AppState::init();
    send(&mut app, ch('n'));
    let order = [
        EditSelection::Description,
        EditSelection::DateDue,
        EditSelection::ReminderDate,
        EditSelection::Priority,
    ];
    for want in order {
        assert!(matches!(send(&mut app, press(KeyCode::Enter)), Request::Nothing));
        assert_eq!(app.edit.selection, want);
    }
    assert!(matches!(send(&mut app, press(KeyCode::Enter)), Request::Create(_)));
    assert_eq!(app.edit.selection, EditSelection::Name);
}

#[test]
fn typing_goes_to_the_current_field() {
    let mut app = AppState::init();
    send(&mut app, ch('n'));
    send(&mut app, ch('a'));
    send(&mut app, press(KeyCode::Enter));
    send(&mut app, ch('b'));
    send(&mut app, ch('c'));
    send(&mut app, press(KeyCode::Backspace));
    send(&mut app, press(KeyCode::Enter));
    send(&mut app, ch('1'));
    assert_eq!(app.edit.name, "a");
    assert_eq!(app.edit.description, "b");
    assert_eq!(app.edit.date_due, "1");
    assert_eq!(app.edit.reminder_date, "");
}

#[test]
fn priority_keys() {
    let mut app = AppState::init();
    send(&mut app, ch('n'));
    for _ in 0..4 {
        send(&mut app, press(KeyCode::Enter));
    }
    send(&mut app, ch('5'));
    assert_eq!(app.edit.priority, 5);
    send(&mut app, ch('x'));
    assert_eq!(app.edit.priority, 4);
    send(&mut app, ch('9'));
    assert_eq!(app.edit.priority, 9);
    send(&mut app, ch('0'));
    assert_eq!(app.edit.priority, 4);
    send(&mut app, press(KeyCode::Backspace));
    assert_eq!(app.edit.priority, 0);
    match send(&mut app, press(KeyCode::Enter)) {
        Request::Create(t) => assert_eq!(t.priority, 4),
        _ => panic!("expected a create request"),
    }
}

#[test]
fn escape_abandons_the_form() {
    let mut app = AppState::init();
    send(&mut app, ch('n'));
    send(&mut app, ch('a'));
    send(&mut app, press(KeyCode::Enter));
    assert!(matches!(send(&mut app, press(KeyCode::Esc)), Request::Nothing));
    assert_eq!(app.focused_widget, Widget::Main);
    assert_eq!(app.main_content_shown, Content::Daylist);
    assert_eq!(app.edit.selection, EditSelection::Name);
    assert!(app.edit.name.is_empty());
    assert!(app.is_running());
}

#[test]
fn arrows_in_the_form_move_focus_only() {
    let mut app = AppState::init();
    send(&mut app, ch('n'));
    let r = edit_events(key(KeyCode::Up), &mut app);
    assert!(matches!(r, Request::Nothing));
    assert_eq!(app.focused_widget, Widget::Main);
    assert_eq!(app.main_content_shown, Content::EditTodo);
    assert_eq!(app.edit.selection, EditSelection::Name);
}

#[test]
fn delete_without_selection_advises() {
    let mut app = AppState::init();
    match send(&mut app, ch('X')) {
        Request::Advise(m) => assert_eq!(m, "No valid todo item selected."),
        _ => panic!("expected an advisory"),
    }
    match send(&mut app, ch('d')) {
        Request::Advise(m) => assert_eq!(m, "No valid todo item selected."),
        _ => panic!("expected an advisory"),
    }
}

#[test]
fn delete_and_toggle_the_selected_task() {
    let mut app = AppState::init();
    app.todo_list.set_todos(vec![task(4), task(8)]);
    send(&mut app, press(KeyCode::Tab));
    send(&mut app, press(KeyCode::Tab));
    assert_eq!(app.todo_list.selected, Some(1));
    assert!(matches!(send(&mut app, ch('X')), Request::Delete(8)));
    assert!(matches!(send(&mut app, ch('d')), Request::Toggle(8)));
    let r = list_events(KeyEvent { code: KeyCode::Tab, shift: true }, &mut app);
    assert!(matches!(r, Request::Nothing));
    assert_eq!(app.todo_list.selected, Some(0));
    assert!(matches!(send(&mut app, ch('d')), Request::Toggle(4)));
}

#[test]
fn reload_key_asks_for_the_list() {
    let mut app = AppState::init();
    assert!(matches!(send(&mut app, ch('L')), Request::Reload));
    assert_eq!(app.focused_widget, Widget::Main);
}

#[test]
fn search_flow() {
    let mut app = AppState::init();
    send(&mut app, press(KeyCode::Up));
    assert_eq!(app.focused_widget, Widget::Search);
    for c in "milk".chars() {
        assert!(matches!(send(&mut app, ch(c)), Request::Nothing));
    }
    let mut searches = 0;
    match send(&mut app, press(KeyCode::Enter)) {
        Request::Search(text) => {
            searches += 1;
            assert_eq!(text, "milk");
            app.show_search_results(vec![task(3)]);
        }
        _ => panic!("expected a search request"),
    }
    assert_eq!(searches, 1);
    assert_eq!(app.main_content_shown, Content::SearchResults);
    assert_eq!(app.search_string, "milk");
    assert_eq!(app.search_results.len(), 1);
}

#[test]
fn search_box_editing_and_escape() {
    let mut app = AppState::init();
    app.focused_widget = Widget::Search;
    search_events(key(KeyCode::Char('a')), &mut app);
    search_events(key(KeyCode::Char('b')), &mut app);
    search_events(key(KeyCode::Backspace), &mut app);
    assert_eq!(app.search_string, "a");
    search_events(key(KeyCode::Backspace), &mut app);
    search_events(key(KeyCode::Backspace), &mut app);
    assert_eq!(app.search_string, "");
    app.main_content_shown = Content::SearchResults;
    search_events(key(KeyCode::Esc), &mut app);
    assert_eq!(app.focused_widget, Widget::Main);
    assert_eq!(app.main_content_shown, Content::Daylist);
}

#[test]
fn quit_keys() {
    let mut app = AppState::init();
    send(&mut app, ch('q'));
    assert!(!app.is_running());
    let mut app = AppState::init();
    send(&mut app, ch('Q'));
    assert!(!app.is_running());
    let mut app = AppState::init();
    app.focused_widget = Widget::Calendar;
    default_events(key(KeyCode::Esc), &mut app);
    assert!(!app.is_running());
    let mut app = AppState::init();
    send(&mut app, press(KeyCode::Esc));
    assert!(app.is_running());
}

#[test]
fn panels_move_with_vim_keys() {
    let mut app = AppState::init();
    send(&mut app, ch('l'));
    assert_eq!(app.focused_widget, Widget::Calendar);
    send(&mut app, ch('k'));
    assert_eq!(app.focused_widget, Widget::Upcoming);
    send(&mut app, ch('h'));
    assert_eq!(app.focused_widget, Widget::Main);
    send(&mut app, ch('h'));
    assert_eq!(app.focused_widget, Widget::Projects);
    send(&mut app, ch('j'));
    assert_eq!(app.focused_widget, Widget::Projects);
    send(&mut app, press(KeyCode::Right));
    assert_eq!(app.focused_widget, Widget::Main);
}

#[test]
fn clicks_focus_search_and_list() {
    let mut app = AppState::init();
    let search = Bounds { x: 10, y: 0, width: 20, height: 3 };
    let main = Bounds { x: 10, y: 3, width: 20, height: 10 };
    dispatch(Event::Click { column: 15, row: 1 }, &mut app, &search, &main);
    assert_eq!(app.focused_widget, Widget::Search);
    dispatch(Event::Click { column: 29, row: 12 }, &mut app, &search, &main);
    assert_eq!(app.focused_widget, Widget::Main);
    dispatch(Event::Click { column: 30, row: 1 }, &mut app, &search, &main);
    assert_eq!(app.focused_widget, Widget::Main);
    dispatch(Event::Resize { width: 80, height: 24 }, &mut app, &search, &main);
    dispatch(Event::Other, &mut app, &search, &main);
    assert_eq!(app.focused_widget, Widget::Main);
    assert!(app.is_running());
}

#[test]
fn bounds_at_the_edge_of_the_screen() {
    let b = Bounds { x: 65535, y: 65535, width: 1, height: 1 };
    assert!(b.contains(65535, 65535));
    assert!(!b.contains(65534, 65535));
    let empty = Bounds { x: 4, y: 4, width: 0, height: 5 };
    assert!(!empty.contains(4, 4));
}

#[test]
fn alert_builds_an_advisory() {
    match alert("hello") {
        Request::Advise(m) => assert_eq!(m, "hello"),
        _ => panic!("expected an advisory"),
    }
}

#[test]
fn exit_stops_the_loop() {
    let mut app = AppState::init();
    app.exit();
    assert!(!app.is_running());
}
