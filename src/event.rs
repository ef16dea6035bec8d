use vstd::prelude::*;

verus! {

/// A rectangle of the terminal screen, in absolute cells.
#[derive(Clone, Copy, Debug, PartialEq, Eq, Default, Structural)]
pub struct Region {
    pub x: u16,
    pub y: u16,
    pub width: u16,
    pub height: u16,
}

/// Whether the cell at (`row`, `col`) lies inside `r`.
pub open spec fn region_contains(r: Region, row: u16, col: u16) -> bool {
    &&& r.y <= row < r.y + r.height
    &&& r.x <= col < r.x + r.width
}

impl Region {
    /// The empty region at the origin, in place until the first render.
    pub open spec fn zero() -> Region {
        Region { x: 0, y: 0, width: 0, height: 0 }
    }

    /// Hit test of an absolute cell against this region.
    pub fn contains(&self, row: u16, col: u16) -> (r: bool)
        ensures
            r == region_contains(*self, row, col),
    {
        let row32 = row as u32;
        let col32 = col as u32;
        row >= self.y && row32 < self.y as u32 + self.height as u32 && col >= self.x && col32
            < self.x as u32 + self.width as u32
    }
}

/// The keys that the line editor and the interaction rules tell apart.
#[derive(Clone, Copy, Debug, PartialEq, Eq, Structural)]
pub enum KeyCode {
    Enter,
    Esc,
    Tab,
    Backspace,
    Delete,
    Left,
    Right,
    Home,
    End,
    Char(char),
    Other,
}

/// A key press: its code and the bit set of held modifiers
/// (shift 1, control 2, alt 4, super 8, hyper 16, meta 32).
#[derive(Clone, Copy, Debug, PartialEq, Eq, Structural)]
pub struct KeyPress {
    pub code: KeyCode,
    pub modifiers: u8,
}

#[derive(Clone, Copy, Debug, PartialEq, Eq, Structural)]
pub enum MouseButton {
    Left,
    Right,
    Middle,
}

#[derive(Clone, Copy, Debug, PartialEq, Eq, Structural)]
pub enum MouseKind {
    Down(MouseButton),
    Up(MouseButton),
    Drag(MouseButton),
    Other,
}

/// A pointer event at an absolute terminal cell.
#[derive(Clone, Copy, Debug, PartialEq, Eq, Structural)]
pub struct MouseInput {
    pub kind: MouseKind,
    pub row: u16,
    pub column: u16,
}

/// A raw terminal input event.
#[derive(Clone, Copy, Debug, PartialEq, Eq, Structural)]
pub enum TermEvent {
    Key(KeyPress),
    Mouse(MouseInput),
    Other,
}

/// What the event sources send to the main loop.
#[derive(Clone, Copy, Debug, PartialEq, Eq, Structural)]
pub enum AppEvent {
    UiEvent(TermEvent),
    CounterChanged(Option<u16>),
}

} // verus!
