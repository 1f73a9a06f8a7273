use vstd::prelude::*;
use crate::schema::{Todo, TodoView};

verus! {

/// The keys that the interface tells apart.
#[derive(Clone, Copy, Debug, PartialEq, Eq, Structural)]
pub enum KeyCode {
    Char(char),
    Enter,
    Backspace,
    Esc,
    Tab,
    Up,
    Down,
    Left,
    Right,
    Other,
}

/// A key press, and whether Shift was held.
#[derive(Clone, Copy, Debug, PartialEq, Eq, Structural)]
pub struct KeyEvent {
    pub code: KeyCode,
    pub shift: bool,
}

/// A rectangle of the screen, in character cells.
#[derive(Clone, Copy, Debug, PartialEq, Eq, Structural)]
pub struct Bounds {
    pub x: u16,
    pub y: u16,
    pub width: u16,
    pub height: u16,
}

impl Bounds {
    pub open spec fn holds(&self, column: int, row: int) -> bool {
        &&& self.x <= column < self.x + self.width
        &&& self.y <= row < self.y + self.height
    }

    /// Whether the cell at `column`, `row` lies inside the rectangle.
    pub fn contains(&self, column: u16, row: u16) -> (r: bool)
        ensures
            r == self.holds(column as int, row as int),
    {
        let right = self.x as u32 + self.width as u32;
        let bottom = self.y as u32 + self.height as u32;
        self.x <= column && (column as u32) < right && self.y <= row && (row as u32) < bottom
    }
}

/// One input event.
#[derive(Clone, Copy, Debug, PartialEq, Eq, Structural)]
pub enum Event {
    Key(KeyEvent),
    /// A mouse button went down on a cell.
    Click { column: u16, row: u16 },
    /// The terminal changed size; the next draw picks it up.
    Resize { width: u16, height: u16 },
    /// Any other input: mouse release, drag, scroll and the like.
    Other,
}

/// What the caller must do after an event has been handled. After
/// `Toggle`, `Delete`, `Create` and `Update` the task list is fetched again.
pub enum Request {
    Nothing,
    /// Show a message to the user; no data is touched.
    Advise(String),
    /// Search the tasks for a text, and hand the results back.
    Search(String),
    /// Fetch the page of tasks again.
    Reload,
    /// Flip the completion status of a task.
    Toggle(i64),
    Delete(i64),
    Create(Todo),
    Update(Todo),
}

pub enum RequestView {
    Nothing,
    Advise(Seq<char>),
    Search(Seq<char>),
    Reload,
    Toggle(i64),
    Delete(i64),
    Create(TodoView),
    Update(TodoView),
}

impl View for Request {
    type V = RequestView;

    open spec fn view(&self) -> RequestView {
        match self {
            Request::Nothing => RequestView::Nothing,
            Request::Advise(m) => RequestView::Advise(m@),
            Request::Search(s) => RequestView::Search(s@),
            Request::Reload => RequestView::Reload,
            Request::Toggle(id) => RequestView::Toggle(*id),
            Request::Delete(id) => RequestView::Delete(*id),
            Request::Create(t) => RequestView::Create(t@),
            Request::Update(t) => RequestView::Update(t@),
        }
    }
}

} // verus!
