use crate::app::{key_post, mouse_next, texts, App, AppMode, FocusMode};
use crate::editor::input_text;
use crate::event::{region_contains, KeyCode, KeyPress, MouseButton, MouseInput, MouseKind};
use crate::progress::{progress_schedule, PROGRESS_STEPS};
use vstd::prelude::*;

verus! {

/// The state after a run of progress values, each applied as
/// `App::update_progress_bar` does.
pub open spec fn apply_counters(s: App, vs: Seq<Option<u16>>) -> App
    decreases vs.len(),
{
    if vs.len() == 0 {
        s
    } else {
        App { progress_counter: vs.last(), ..apply_counters(s, vs.drop_last()) }
    }
}

/// The state after a run of pointer events, each applied as
/// `App::handle_mouse` does.
pub open spec fn apply_mouse(s: App, ms: Seq<MouseInput>) -> App
    decreases ms.len(),
{
    if ms.len() == 0 {
        s
    } else {
        mouse_next(apply_mouse(s, ms.drop_last()), ms.last())
    }
}

/// The simulated job sends the values 0 to 99 in increasing order and then
/// `None`; after each of them the progress reads the value last sent.
pub proof fn law_progress_run(s: App, i: int, j: int)
    requires
        0 <= i <= j <= PROGRESS_STEPS,
    ensures
        i < PROGRESS_STEPS ==> progress_schedule(i) == Some(Some(i as u16)),
        j < PROGRESS_STEPS ==> progress_schedule(i)->0->0 <= progress_schedule(j)->0->0 < 100,
        progress_schedule(PROGRESS_STEPS as int) == Some(None::<u16>),
        ({
            let run = Seq::new((j + 1) as nat, |k: int| progress_schedule(k)->0);
            &&& apply_counters(s, run).progress_counter == progress_schedule(j)->0
            &&& j == PROGRESS_STEPS ==> apply_counters(s, run).progress_counter is None
        }),
{
    let run = Seq::new((j + 1) as nat, |k: int| progress_schedule(k)->0);
    assert(run.last() == progress_schedule(j)->0);
}

/// A press outside both regions drops the selection and ends any drag.
pub proof fn law_press_outside(s: App, m: MouseInput)
    requires
        m.kind == MouseKind::Down(MouseButton::Left),
        !region_contains(s.input_rect, m.row, m.column),
        !region_contains(s.console_rect, m.row, m.column),
    ensures
        mouse_next(s, m).selection_start is None,
        mouse_next(s, m).selection_end is None,
        !mouse_next(s, m).dragging,
{
}

/// A press inside the console (and not inside the input line, which is
/// tested first) starts a selection of one point at the region-local cell.
pub proof fn law_press_in_console(s: App, m: MouseInput)
    requires
        m.kind == MouseKind::Down(MouseButton::Left),
        region_contains(s.console_rect, m.row, m.column),
        !region_contains(s.input_rect, m.row, m.column),
    ensures
        ({
            let t = mouse_next(s, m);
            let p = ((m.row - s.console_rect.y) as usize, (m.column - s.console_rect.x) as usize);
            &&& t.selection_start == Some(p)
            &&& t.selection_end == Some(p)
            &&& t.dragging
            &&& t.focus_mode == FocusMode::Console
        }),
{
}

/// Drag events change nothing but the selection end: in particular the
/// selection start stays where the press put it.
pub proof fn law_drags_move_end_only(s: App, ms: Seq<MouseInput>)
    requires
        forall|i: int| 0 <= i < ms.len() ==> #[trigger] ms[i].kind is Drag,
    ensures
        apply_mouse(s, ms).selection_start == s.selection_start,
        (App { selection_end: s.selection_end, ..apply_mouse(s, ms) }) == s,
    decreases ms.len(),
{
    if ms.len() > 0 {
        law_drags_move_end_only(s, ms.drop_last());
        assert(ms.last().kind is Drag);
    }
}

/// A release never touches the selection, and a release of the left button
/// ends the drag.
pub proof fn law_release(s: App, m: MouseInput)
    requires
        m.kind is Up,
    ensures
        mouse_next(s, m).selection_start == s.selection_start,
        mouse_next(s, m).selection_end == s.selection_end,
        m.kind == MouseKind::Up(MouseButton::Left) ==> !mouse_next(s, m).dragging,
{
}

/// Enter on the input line adds exactly one transcript entry, the text that
/// was typed, and leaves the input line empty.
pub proof fn law_enter_submits(s: App, t: App, k: KeyPress)
    requires
        s.focus_mode == FocusMode::Input,
        k.code == KeyCode::Enter,
        key_post(s, t, k),
    ensures
        t.messages@.len() == s.messages@.len() + 1,
        t.messages@.last()@ == input_text(s.input),
        forall|i: int| 0 <= i < s.messages@.len() ==> #[trigger] t.messages@[i]@ == s.messages@[i]@,
        input_text(t.input) == Seq::<char>::empty(),
{
    assert(texts(t.messages@).len() == t.messages@.len());
    assert(texts(t.messages@)[t.messages@.len() - 1] == t.messages@.last()@);
    assert forall|i: int| 0 <= i < s.messages@.len() implies #[trigger] t.messages@[i]@
        == s.messages@[i]@ by {
        assert(texts(t.messages@)[i] == texts(s.messages@)[i]);
    }
}

/// Esc quits from the input line; in the console it keeps the mode and
/// drops the selection instead.
pub proof fn law_escape(s: App, t: App, k: KeyPress)
    requires
        k.code == KeyCode::Esc,
        key_post(s, t, k),
    ensures
        s.focus_mode == FocusMode::Input ==> t.mode == AppMode::Quit,
        s.focus_mode == FocusMode::Console ==> {
            &&& t.mode == s.mode
            &&& t.selection_start is None
            &&& t.selection_end is None
        },
{
}

/// No key press removes or changes a transcript entry.
pub proof fn law_transcript_grows(s: App, t: App, k: KeyPress)
    requires
        key_post(s, t, k),
    ensures
        s.messages@.len() <= t.messages@.len(),
        forall|i: int| 0 <= i < s.messages@.len() ==> #[trigger] t.messages@[i]@ == s.messages@[i]@,
{
    assert(texts(t.messages@).len() == t.messages@.len());
    assert forall|i: int| 0 <= i < s.messages@.len() implies #[trigger] t.messages@[i]@
        == s.messages@[i]@ by {
        assert(texts(t.messages@)[i] == texts(s.messages@)[i]);
    }
}

} // verus!
