use day_list::nav::{Direction, Widget};

#[test]
fn moves_from_main() {
    assert_eq!(Widget::Main.up(), Widget::Search);
    assert_eq!(Widget::Main.down(), Widget::Main);
    assert_eq!(Widget::Main.left(), Widget::Projects);
    assert_eq!(Widget::Main.right(), Widget::Calendar);
}

#[test]
fn moves_from_search() {
    assert_eq!(Widget::Search.up(), Widget::Search);
    assert_eq!(Widget::Search.down(), Widget::Main);
    assert_eq!(Widget::Search.left(), Widget::Search);
    assert_eq!(Widget::Search.right(), Widget::Upcoming);
}

#[test]
fn moves_from_side_panels() {
    assert_eq!(Widget::Upcoming.up(), Widget::Upcoming);
    assert_eq!(Widget::Upcoming.down(), Widget::Calendar);
    assert_eq!(Widget::Upcoming.left(), Widget::Main);
    assert_eq!(Widget::Upcoming.right(), Widget::Upcoming);
    assert_eq!(Widget::Calendar.up(), Widget::Upcoming);
    assert_eq!(Widget::Calendar.down(), Widget::Calendar);
    assert_eq!(Widget::Calendar.left(), Widget::Main);
    assert_eq!(Widget::Calendar.right(), Widget::Calendar);
    assert_eq!(Widget::Projects.up(), Widget::Projects);
    assert_eq!(Widget::Projects.down(), Widget::Projects);
    assert_eq!(Widget::Projects.left(), Widget::Projects);
    assert_eq!(Widget::Projects.right(), Widget::Main);
}

#[test]
fn edit_form_leads_back_to_main() {
    assert_eq!(Widget::EditTodo.up(), Widget::Main);
    assert_eq!(Widget::EditTodo.down(), Widget::Main);
    assert_eq!(Widget::EditTodo.left(), Widget::Main);
    assert_eq!(Widget::EditTodo.right(), Widget::Main);
}

#[test]
fn repeated_moves_into_a_wall_stay() {
    let mut w = Widget::Search;
    for _ in 0..5 {
        w = w.up();
        assert_eq!(w, Widget::Search);
    }
    let mut w = Widget::Main;
    for _ in 0..5 {
        w = w.go(Direction::Down);
        assert_eq!(w, Widget::Main);
    }
}

#[test]
fn go_matches_the_named_moves() {
    let all = [
        Widget::Calendar,
        Widget::EditTodo,
        Widget::Main,
        Widget::Search,
        Widget::Upcoming,
        Widget::Projects,
    ];
    for w in all {
        assert_eq!(w.go(Direction::Up), w.up());
        assert_eq!(w.go(Direction::Down), w.down());
        assert_eq!(w.go(Direction::Left), w.left());
        assert_eq!(w.go(Direction::Right), w.right());
    }
}
