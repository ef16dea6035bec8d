use crate::editor::{
    cursor_in_text, edit_input, input_cursor, input_text, input_value, inserted_char, keeps_text,
    new_input, reset_input,
};
use crate::event::{
    region_contains, AppEvent, KeyCode, KeyPress, MouseButton, MouseInput, MouseKind, Region,
    TermEvent,
};
use crate::selection::{highlight_line, in_selection};
use tui_input::Input;
use vstd::prelude::*;

verus! {

#[derive(Clone, Copy, Debug, PartialEq, Eq, Structural)]
pub enum AppMode {
    Run,
    Quit,
}

/// Which region receives keyboard input.
#[derive(Clone, Copy, Debug, PartialEq, Eq, Structural)]
pub enum FocusMode {
    Input,
    Console,
}

/// The name under which a focus mode is shown.
pub open spec fn focus_label(f: FocusMode) -> Seq<char> {
    match f {
        FocusMode::Input => seq!['I', 'n', 'p', 'u', 't'],
        FocusMode::Console => seq!['C', 'o', 'n', 's', 'o', 'l', 'e'],
    }
}

impl FocusMode {
    /// The name under which this focus mode is shown.
    pub fn as_str(&self) -> (r: &'static str)
        ensures
            r@ == focus_label(*self),
    {
        match self {
            FocusMode::Input => {
                proof {
                    reveal_strlit("Input");
                }
                "Input"
            },
            FocusMode::Console => {
                proof {
                    reveal_strlit("Console");
                }
                "Console"
            },
        }
    }
}

/// The application state, owned by the main loop.
pub struct App {
    pub input: Input,
    pub mode: AppMode,
    pub progress_counter: Option<u16>,
    /// Where the input line was last drawn.
    pub input_rect: Region,
    /// Where the console transcript was last drawn.
    pub console_rect: Region,
    pub focus_mode: FocusMode,
    /// Horizontal scroll of the input line, kept by the render pass.
    pub scroll: usize,
    pub messages: Vec<String>,
    /// (line, column) in console-local coordinates.
    pub selection_start: Option<(usize, usize)>,
    pub selection_end: Option<(usize, usize)>,
    pub dragging: bool,
}

/// A coordinate made local to a region whose edge is at `origin`
/// (modulo 2^16 when the cell lies before the edge).
pub open spec fn local(abs: u16, origin: u16) -> usize {
    abs.wrapping_sub(origin) as usize
}

/// The selection point of a pointer event, relative to the console.
pub open spec fn console_point(s: App, m: MouseInput) -> (usize, usize) {
    (local(m.row, s.console_rect.y), local(m.column, s.console_rect.x))
}

/// The state after a pointer event.
pub open spec fn mouse_next(s: App, m: MouseInput) -> App {
    match m.kind {
        MouseKind::Down(MouseButton::Left) => {
            if region_contains(s.input_rect, m.row, m.column) {
                App { focus_mode: FocusMode::Input, dragging: false, ..s }
            } else if region_contains(s.console_rect, m.row, m.column) {
                let p = Some(console_point(s, m));
                App {
                    focus_mode: FocusMode::Console,
                    selection_start: p,
                    selection_end: p,
                    dragging: true,
                    ..s
                }
            } else {
                App { selection_start: None, selection_end: None, dragging: false, ..s }
            }
        },
        MouseKind::Drag(MouseButton::Left) => {
            if s.dragging && s.focus_mode == FocusMode::Console {
                App { selection_end: Some(console_point(s, m)), ..s }
            } else {
                s
            }
        },
        MouseKind::Up(MouseButton::Left) => App { dragging: false, ..s },
        _ => s,
    }
}

/// The transcript as character sequences.
pub open spec fn texts(msgs: Seq<String>) -> Seq<Seq<char>> {
    msgs.map_values(|m: String| m@)
}

/// How a key press relates the state before (`s`) to the state after (`t`).
/// In the console Esc drops the selection and Tab moves the focus to the input
/// line; both end a drag. With the input line focused (also right after Tab)
/// the key goes to the line editor, and Enter first moves the text into the
/// transcript while Esc quits. Of the editor's other requests only the
/// insertion of a typed character is stated here.
pub open spec fn key_post(s: App, t: App, k: KeyPress) -> bool {
    let in_console = s.focus_mode == FocusMode::Console;
    let in_input = s.focus_mode == FocusMode::Input;
    &&& t.mode == (if in_input && k.code == KeyCode::Esc {
        AppMode::Quit
    } else {
        s.mode
    })
    &&& t.focus_mode == (if in_console && k.code == KeyCode::Tab {
        FocusMode::Input
    } else {
        s.focus_mode
    })
    &&& if in_console && k.code == KeyCode::Esc {
        t.selection_start is None && t.selection_end is None
    } else {
        t.selection_start == s.selection_start && t.selection_end == s.selection_end
    }
    &&& t.dragging == (if in_console && (k.code == KeyCode::Esc || k.code == KeyCode::Tab) {
        false
    } else {
        s.dragging
    })
    &&& t.messages@.len() == s.messages@.len() + (if in_input && k.code == KeyCode::Enter {
        1int
    } else {
        0
    })
    &&& texts(t.messages@) == (if in_input && k.code == KeyCode::Enter {
        texts(s.messages@).push(input_text(s.input))
    } else {
        texts(s.messages@)
    })
    &&& if in_input && k.code == KeyCode::Enter {
        input_text(t.input) == Seq::<char>::empty() && input_cursor(t.input) == 0
    } else if in_console && k.code != KeyCode::Tab || keeps_text(k) {
        t.input == s.input
    } else if inserted_char(k) is Some {
        &&& input_text(t.input) == input_text(s.input).insert(
            input_cursor(s.input) as int,
            inserted_char(k)->0,
        )
        &&& input_cursor(t.input) == input_cursor(s.input) + 1
    } else {
        true
    }
    &&& t.progress_counter == s.progress_counter
    &&& t.input_rect == s.input_rect
    &&& t.console_rect == s.console_rect
    &&& t.scroll == s.scroll
}

impl App {
    /// Invariant: a drag runs only in the focused console from a set start,
    /// the two selection endpoints are set together, and the input cursor
    /// lies within the input text.
    pub open spec fn wf(&self) -> bool {
        &&& cursor_in_text(self.input)
        &&& self.dragging ==> self.focus_mode == FocusMode::Console
            && self.selection_start is Some
        &&& self.selection_start is Some <==> self.selection_end is Some
    }

    /// The state at start-up.
    pub fn new() -> (r: App)
        ensures
            r.wf(),
            r.mode == AppMode::Run,
            r.focus_mode == FocusMode::Input,
            input_text(r.input) == Seq::<char>::empty(),
            input_cursor(r.input) == 0,
            r.progress_counter is None,
            r.input_rect == Region::zero(),
            r.console_rect == Region::zero(),
            r.scroll == 0,
            r.messages@.len() == 0,
            r.selection_start is None,
            r.selection_end is None,
            !r.dragging,
    {
        App {
            input: new_input(),
            mode: AppMode::Run,
            progress_counter: None,
            input_rect: Region { x: 0, y: 0, width: 0, height: 0 },
            console_rect: Region { x: 0, y: 0, width: 0, height: 0 },
            focus_mode: FocusMode::Input,
            scroll: 0,
            messages: Vec::new(),
            selection_start: None,
            selection_end: None,
            dragging: false,
        }
    }

    /// Applies a pointer event, hit-testing it against the regions of the
    /// last render: the input region first, then the console.
    pub fn handle_mouse(&mut self, m: MouseInput)
        requires
            old(self).wf(),
        ensures
            final(self).wf(),
            *final(self) == mouse_next(*old(self), m),
    {
        let row = m.row;
        let col = m.column;
        match m.kind {
            MouseKind::Down(MouseButton::Left) => {
                if self.input_rect.contains(row, col) {
                    self.focus_mode = FocusMode::Input;
                    self.dragging = false;
                } else if self.console_rect.contains(row, col) {
                    self.focus_mode = FocusMode::Console;
                    let p = (
                        row.wrapping_sub(self.console_rect.y) as usize,
                        col.wrapping_sub(self.console_rect.x) as usize,
                    );
                    self.selection_start = Some(p);
                    self.selection_end = Some(p);
                    self.dragging = true;
                } else {
                    self.selection_start = None;
                    self.selection_end = None;
                    self.dragging = false;
                }
            },
            MouseKind::Drag(MouseButton::Left) => {
                if self.dragging && self.focus_mode == FocusMode::Console {
                    self.selection_end = Some(
                        (
                            row.wrapping_sub(self.console_rect.y) as usize,
                            col.wrapping_sub(self.console_rect.x) as usize,
                        ),
                    );
                }
            },
            MouseKind::Up(MouseButton::Left) => {
                self.dragging = false;
            },
            _ => {},
        }
    }

    /// Applies a key press, as the focused region takes it.
    pub fn handle_key(&mut self, k: KeyPress)
        requires
            old(self).wf(),
        ensures
            final(self).wf(),
            key_post(*old(self), *final(self), k),
    {
        if self.focus_mode == FocusMode::Console {
            match k.code {
                KeyCode::Esc => {
                    self.selection_start = None;
                    self.selection_end = None;
                    self.dragging = false;
                },
                KeyCode::Tab => {
                    self.focus_mode = FocusMode::Input;
                    self.dragging = false;
                },
                _ => {},
            }
        }
        if self.focus_mode == FocusMode::Input {
            match k.code {
                KeyCode::Enter => {
                    let line = input_value(&self.input);
                    self.messages.push(line);
                    reset_input(&mut self.input);
                },
                KeyCode::Esc => {
                    self.mode = AppMode::Quit;
                },
                _ => {},
            }
            edit_input(&mut self.input, k);
        }
        proof {
            let s = *old(self);
            if s.focus_mode == FocusMode::Input && k.code == KeyCode::Enter {
                assert(texts(self.messages@) =~= texts(s.messages@).push(input_text(s.input)));
            } else {
                assert(texts(self.messages@) =~= texts(s.messages@));
            }
        }
    }

    /// Applies a raw terminal event.
    pub fn handle_ui_event(&mut self, event: TermEvent)
        requires
            old(self).wf(),
        ensures
            final(self).wf(),
            match event {
                TermEvent::Key(k) => key_post(*old(self), *final(self), k),
                TermEvent::Mouse(m) => *final(self) == mouse_next(*old(self), m),
                TermEvent::Other => *final(self) == *old(self),
            },
    {
        match event {
            TermEvent::Key(k) => self.handle_key(k),
            TermEvent::Mouse(m) => self.handle_mouse(m),
            TermEvent::Other => {},
        }
    }

    /// Records the progress of the background job; `None` means that no job runs.
    pub fn update_progress_bar(&mut self, value: Option<u16>)
        requires
            old(self).wf(),
        ensures
            final(self).wf(),
            *final(self) == (App { progress_counter: value, ..*old(self) }),
    {
        self.progress_counter = value;
    }

    /// Applies one event taken off the channel, and tells whether the main
    /// loop goes on (it stops once the mode is `Quit`).
    pub fn dispatch(&mut self, event: AppEvent) -> (go_on: bool)
        requires
            old(self).wf(),
        ensures
            final(self).wf(),
            go_on == (final(self).mode == AppMode::Run),
            old(self).mode == AppMode::Quit ==> final(self).mode == AppMode::Quit,
            match event {
                AppEvent::UiEvent(TermEvent::Key(k)) => key_post(*old(self), *final(self), k),
                AppEvent::UiEvent(TermEvent::Mouse(m)) => *final(self) == mouse_next(*old(self), m),
                AppEvent::UiEvent(TermEvent::Other) => *final(self) == *old(self),
                AppEvent::CounterChanged(v) => *final(self) == (App {
                    progress_counter: v,
                    ..*old(self)
                }),
            },
    {
        match event {
            AppEvent::UiEvent(e) => self.handle_ui_event(e),
            AppEvent::CounterChanged(v) => self.update_progress_bar(v),
        }
        self.mode == AppMode::Run
    }

    /// Stores where the console and the input line were drawn, for the
    /// pointer events that follow.
    pub fn set_regions(&mut self, console: Region, input: Region)
        requires
            old(self).wf(),
        ensures
            final(self).wf(),
            *final(self) == (App { console_rect: console, input_rect: input, ..*old(self) }),
    {
        self.console_rect = console;
        self.input_rect = input;
    }

    /// The highlight flags of every transcript line under the current selection.
    pub fn highlighted_lines(&self) -> (r: Vec<Vec<bool>>)
        ensures
            r@.len() == self.messages@.len(),
            forall|l: int| #![trigger r@[l]]
                0 <= l < r@.len() ==> r@[l]@.len() == self.messages@[l]@.len() && forall|c: int|
                    0 <= c < r@[l]@.len() ==> #[trigger] r@[l]@[c] == in_selection(
                        self.selection_start,
                        self.selection_end,
                        l,
                        c,
                    ),
    {
        let mut out: Vec<Vec<bool>> = Vec::new();
        let mut l: usize = 0;
        while l < self.messages.len()
            invariant
                l <= self.messages@.len(),
                out@.len() == l,
                forall|j: int| #![trigger out@[j]]
                    0 <= j < l ==> out@[j]@.len() == self.messages@[j]@.len() && forall|c: int|
                        0 <= c < out@[j]@.len() ==> #[trigger] out@[j]@[c] == in_selection(
                            self.selection_start,
                            self.selection_end,
                            j,
                            c,
                        ),
            decreases self.messages@.len() - l,
        {
            let flags = highlight_line(
                self.selection_start,
                self.selection_end,
                l,
                self.messages[l].as_str(),
            );
            out.push(flags);
            l = l + 1;
        }
        out
    }
}

} // verus!
