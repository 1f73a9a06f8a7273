use vstd::prelude::*;

verus! {

/// What the main content area shows.
#[derive(Clone, Copy, Debug, PartialEq, Eq, Structural)]
pub enum Content {
    Daylist,
    EditTodo,
    SearchResults,
}

/// The screen regions that can hold keyboard focus.
#[derive(Clone, Copy, Debug, PartialEq, Eq, Structural)]
pub enum Widget {
    Calendar,
    EditTodo,
    Main,
    Search,
    Upcoming,
    Projects,
}

/// A directional input.
#[derive(Clone, Copy, Debug, PartialEq, Eq, Structural)]
pub enum Direction {
    Up,
    Down,
    Left,
    Right,
}

/// The region reached from `w` by one move in direction `d`.
///
/// Projects, Main and Calendar form a row; Search sits above Main and
/// Upcoming above Calendar. The edit form is no arrow target: every move
/// away from it lands on Main.
pub open spec fn step(w: Widget, d: Direction) -> Widget {
    match d {
        Direction::Up => match w {
            Widget::Calendar => Widget::Upcoming,
            Widget::Main => Widget::Search,
            Widget::Search => Widget::Search,
            Widget::Upcoming => Widget::Upcoming,
            Widget::Projects => Widget::Projects,
            Widget::EditTodo => Widget::Main,
        },
        Direction::Down => match w {
            Widget::Calendar => Widget::Calendar,
            Widget::Main => Widget::Main,
            Widget::Search => Widget::Main,
            Widget::Upcoming => Widget::Calendar,
            Widget::Projects => Widget::Projects,
            Widget::EditTodo => Widget::Main,
        },
        Direction::Left => match w {
            Widget::Calendar => Widget::Main,
            Widget::Main => Widget::Projects,
            Widget::Search => Widget::Search,
            Widget::Upcoming => Widget::Main,
            Widget::Projects => Widget::Projects,
            Widget::EditTodo => Widget::Main,
        },
        Direction::Right => match w {
            Widget::Calendar => Widget::Calendar,
            Widget::Main => Widget::Calendar,
            Widget::Search => Widget::Upcoming,
            Widget::Upcoming => Widget::Upcoming,
            Widget::Projects => Widget::Main,
            Widget::EditTodo => Widget::Main,
        },
    }
}

/// The walls of the layout: the moves that leave focus where it is.
pub open spec fn is_wall(w: Widget, d: Direction) -> bool {
    match w {
        Widget::Main => d == Direction::Down,
        Widget::Search => d == Direction::Up || d == Direction::Left,
        Widget::Upcoming => d == Direction::Up || d == Direction::Right,
        Widget::Calendar => d == Direction::Down || d == Direction::Right,
        Widget::Projects => d == Direction::Up || d == Direction::Down || d == Direction::Left,
        Widget::EditTodo => false,
    }
}

/// The region reached from `w` by `n` moves in direction `d`.
pub open spec fn walk(w: Widget, d: Direction, n: nat) -> Widget
    decreases n,
{
    if n == 0 {
        w
    } else {
        walk(step(w, d), d, (n - 1) as nat)
    }
}

/// Navigation is defined for every region and direction, a move stays put
/// exactly at the walls of the layout, and any number of moves into a wall
/// keeps returning the same region.
pub proof fn lemma_walls(w: Widget, d: Direction, n: nat)
    ensures
        step(w, d) == w <==> is_wall(w, d),
        is_wall(w, d) ==> walk(w, d, n) == w,
    decreases n,
{
    if n > 0 && is_wall(w, d) {
        lemma_walls(w, d, (n - 1) as nat);
    }
}

impl Widget {
    pub fn up(&self) -> (r: Widget)
        ensures
            r == step(*self, Direction::Up),
    {
        match self {
            Widget::Calendar => Widget::Upcoming,
            Widget::Main => Widget::Search,
            Widget::Search => Widget::Search,
            Widget::Upcoming => Widget::Upcoming,
            Widget::Projects => Widget::Projects,
            _ => Widget::Main,
        }
    }

    pub fn down(&self) -> (r: Widget)
        ensures
            r == step(*self, Direction::Down),
    {
        match self {
            Widget::Calendar => Widget::Calendar,
            Widget::Main => Widget::Main,
            Widget::Search => Widget::Main,
            Widget::Upcoming => Widget::Calendar,
            Widget::Projects => Widget::Projects,
            _ => Widget::Main,
        }
    }

    pub fn left(&self) -> (r: Widget)
        ensures
            r == step(*self, Direction::Left),
    {
        match self {
            Widget::Calendar => Widget::Main,
            Widget::Main => Widget::Projects,
            Widget::Search => Widget::Search,
            Widget::Upcoming => Widget::Main,
            Widget::Projects => Widget::Projects,
            _ => Widget::Main,
        }
    }

    pub fn right(&self) -> (r: Widget)
        ensures
            r == step(*self, Direction::Right),
    {
        match self {
            Widget::Calendar => Widget::Calendar,
            Widget::Main => Widget::Calendar,
            Widget::Search => Widget::Upcoming,
            Widget::Upcoming => Widget::Upcoming,
            Widget::Projects => Widget::Main,
            _ => Widget::Main,
        }
    }

    /// One move in direction `d`.
    pub fn go(&self, d: Direction) -> (r: Widget)
        ensures
            r == step(*self, d),
    {
        match d {
            Direction::Up => self.up(),
            Direction::Down => self.down(),
            Direction::Left => self.left(),
            Direction::Right => self.right(),
        }
    }
}

} // verus!
