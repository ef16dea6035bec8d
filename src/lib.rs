//! Event-merging and interaction core of a terminal console: the application
//! state machine driven by keyboard, mouse and progress events, and the
//! selection-highlighting rule used when the console transcript is drawn.

mod app;
mod config;
mod editor;
mod event;
mod laws;
mod progress;
mod selection;

pub use app::{
    console_point, focus_label, key_post, local, mouse_next, texts, App, AppMode, FocusMode,
};
pub use config::get_data_dir;
pub use editor::{cursor_in_text, input_cursor, input_text, inserted_char, keeps_text};
pub use event::{
    region_contains, AppEvent, KeyCode, KeyPress, MouseButton, MouseInput, MouseKind, Region,
    TermEvent,
};
pub use laws::{
    apply_counters, apply_mouse, law_drags_move_end_only, law_enter_submits, law_escape,
    law_press_in_console, law_press_outside, law_progress_run, law_release, law_transcript_grows,
};
pub use progress::{progress_event, progress_schedule, PROGRESS_STEPS};
pub use selection::{highlight_line, in_selection, is_selected};
