use crate::event::{KeyCode, KeyPress};
use crossterm::event::{Event, KeyCode as CrosstermKeyCode, KeyEvent, KeyModifiers};
use tui_input::backend::crossterm::EventHandler;
use tui_input::Input;
use vstd::prelude::*;

verus! {

#[verifier::external_type_specification]
#[verifier::external_body]
pub struct ExInput(tui_input::Input);

/// The text held by a line-editing buffer, one entry per character.
pub uninterp spec fn input_text(i: tui_input::Input) -> Seq<char>;

/// The cursor of a line-editing buffer, as a character index.
pub uninterp spec fn input_cursor(i: tui_input::Input) -> nat;

/// The buffer's cursor lies within its text (or just past its end).
pub open spec fn cursor_in_text(i: tui_input::Input) -> bool {
    input_cursor(i) <= input_text(i).len()
}

/// Keys that the line editor turns into no request, so the buffer stays as it is.
pub open spec fn keeps_text(k: KeyPress) -> bool {
    k.code is Enter || k.code is Esc || k.code is Tab || k.code is Other
}

/// The character that a key inserts, where it is a character key with no
/// modifier but shift.
pub open spec fn inserted_char(k: KeyPress) -> Option<char> {
    match k.code {
        KeyCode::Char(c) => if k.modifiers == 0 || k.modifiers == 1 {
            Some(c)
        } else {
            None
        },
        _ => None,
    }
}

/// Relies on `Input::default`: an empty buffer with the cursor at 0.
#[verifier::external_body]
pub(crate) fn new_input() -> (r: Input)
    ensures
        input_text(r) == Seq::<char>::empty(),
        input_cursor(r) == 0,
{
    Input::default()
}

/// Relies on `Input::value`: the buffer's text.
#[verifier::external_body]
pub(crate) fn input_value(i: &Input) -> (r: String)
    ensures
        r@ == input_text(*i),
{
    i.value().to_string()
}

/// Relies on `Input::reset`: empties the text and puts the cursor at its start.
#[verifier::external_body]
pub(crate) fn reset_input(i: &mut Input)
    ensures
        input_text(*final(i)) == Seq::<char>::empty(),
        input_cursor(*final(i)) == 0,
{
    i.reset()
}

/// Relies on `EventHandler::handle_event` for `Input` (through
/// `to_input_request` and `Input::handle`): Enter, Esc, Tab and keys of no
/// editing request leave the buffer alone; a character key with no modifier
/// but shift inserts the character at the cursor and moves the cursor past
/// it; no request moves the cursor out of the text.
#[verifier::external_body]
pub(crate) fn edit_input(i: &mut Input, key: KeyPress)
    ensures
        keeps_text(key) ==> *final(i) == *old(i),
        cursor_in_text(*old(i)) ==> cursor_in_text(*final(i)),
        cursor_in_text(*old(i)) && inserted_char(key) is Some ==> {
            &&& input_text(*final(i)) == input_text(*old(i)).insert(
                input_cursor(*old(i)) as int,
                inserted_char(key)->0,
            )
            &&& input_cursor(*final(i)) == input_cursor(*old(i)) + 1
        },
{
    let code = match key.code {
        KeyCode::Enter => CrosstermKeyCode::Enter,
        KeyCode::Esc => CrosstermKeyCode::Esc,
        KeyCode::Tab => CrosstermKeyCode::Tab,
        KeyCode::Backspace => CrosstermKeyCode::Backspace,
        KeyCode::Delete => CrosstermKeyCode::Delete,
        KeyCode::Left => CrosstermKeyCode::Left,
        KeyCode::Right => CrosstermKeyCode::Right,
        KeyCode::Home => CrosstermKeyCode::Home,
        KeyCode::End => CrosstermKeyCode::End,
        KeyCode::Char(c) => CrosstermKeyCode::Char(c),
        KeyCode::Other => CrosstermKeyCode::Null,
    };
    let ev = Event::Key(KeyEvent::new(code, KeyModifiers::from_bits_truncate(key.modifiers)));
    i.handle_event(&ev);
}

} // verus!
