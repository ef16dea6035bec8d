use tui_console::{
    get_data_dir, highlight_line, is_selected, progress_event, App, AppEvent, AppMode, FocusMode,
    KeyCode, KeyPress, MouseButton, MouseInput, MouseKind, Region, TermEvent, PROGRESS_STEPS,
};

fn console() -> Region {
    Region { x: 10, y: 2, width: 20, height: 5 }
}

fn input_line() -> Region {
    Region { x: 10, y: 7, width: 20, height: 3 }
}

fn laid_out() -> App {
    let mut app = App::new();
    app.set_regions(console(), input_line());
    app
}

fn mouse(app: &mut App, kind: MouseKind, row: u16, column: u16) -> bool {
    app.dispatch(AppEvent::UiEvent(TermEvent::Mouse(MouseInput { kind, row, column })))
}

fn key(app: &mut App, code: KeyCode) -> bool {
    app.dispatch(AppEvent::UiEvent(TermEvent::Key(KeyPress { code, modifiers: 0 })))
}

fn type_text(app: &mut App, text: &str) {
    for c in text.chars() {
        key(app, KeyCode::Char(c));
    }
}

#[test]
fn starts_with_defaults() {
    let app = App::new();
    assert_eq!(app.mode, AppMode::Run);
    assert_eq!(app.focus_mode, FocusMode::Input);
    assert_eq!(app.progress_counter, None);
    assert!(app.messages.is_empty());
    assert_eq!(app.selection_start, None);
    assert_eq!(app.selection_end, None);
    assert!(!app.dragging);
    assert_eq!(app.input.value(), "");
    assert_eq!(app.console_rect, Region { x: 0, y: 0, width: 0, height: 0 });
}

#[test]
fn progress_run_reports_each_value_then_none() {
    let mut app = App::new();
    let mut last: Option<u16> = None;
    let mut step: u16 = 0;
    while let Some(event) = progress_event(step) {
        assert!(app.dispatch(event));
        if step < PROGRESS_STEPS {
            assert_eq!(event, AppEvent::CounterChanged(Some(step)));
            assert_eq!(app.progress_counter, Some(step));
            let v = app.progress_counter.unwrap();
            assert!(v < 100);
            if let Some(prev) = last {
                assert!(prev <= v);
            }
            last = Some(v);
        } else {
            assert_eq!(event, AppEvent::CounterChanged(None));
            assert_eq!(app.progress_counter, None);
        }
        step += 1;
    }
    assert_eq!(step, 101);
    assert_eq!(last, Some(99));
    assert_eq!(progress_event(101), None);
}

#[test]
fn press_outside_both_regions_clears_selection() {
    let mut app = laid_out();
    mouse(&mut app, MouseKind::Down(MouseButton::Left), 3, 12);
    assert!(app.dragging);
    mouse(&mut app, MouseKind::Down(MouseButton::Left), 0, 0);
    assert_eq!(app.selection_start, None);
    assert_eq!(app.selection_end, None);
    assert!(!app.dragging);
}

#[test]
fn press_before_first_render_hits_no_region() {
    let mut app = App::new();
    mouse(&mut app, MouseKind::Down(MouseButton::Left), 0, 0);
    assert_eq!(app.focus_mode, FocusMode::Input);
    assert_eq!(app.selection_start, None);
    assert!(!app.dragging);
}

#[test]
fn press_in_console_starts_selection_at_local_cell() {
    let mut app = laid_out();
    mouse(&mut app, MouseKind::Down(MouseButton::Left), 4, 13);
    assert_eq!(app.focus_mode, FocusMode::Console);
    assert_eq!(app.selection_start, Some((2, 3)));
    assert_eq!(app.selection_end, Some((2, 3)));
    assert!(app.dragging);
}

#[test]
fn press_on_region_edges() {
    let mut app = laid_out();
    // last row and column of the console
    mouse(&mut app, MouseKind::Down(MouseButton::Left), 6, 29);
    assert_eq!(app.selection_start, Some((4, 19)));
    // one column to the right of it
    mouse(&mut app, MouseKind::Down(MouseButton::Left), 6, 30);
    assert_eq!(app.selection_start, None);
    assert!(console().contains(2, 10));
    assert!(!console().contains(7, 10));
    assert!(input_line().contains(7, 10));
}

#[test]
fn press_in_input_focuses_input_and_keeps_selection() {
    let mut app = laid_out();
    mouse(&mut app, MouseKind::Down(MouseButton::Left), 3, 11);
    mouse(&mut app, MouseKind::Down(MouseButton::Left), 8, 15);
    assert_eq!(app.focus_mode, FocusMode::Input);
    assert!(!app.dragging);
    assert_eq!(app.selection_start, Some((1, 1)));
}

#[test]
fn drags_move_only_the_end() {
    let mut app = laid_out();
    mouse(&mut app, MouseKind::Down(MouseButton::Left), 3, 12);
    mouse(&mut app, MouseKind::Drag(MouseButton::Left), 4, 15);
    assert_eq!(app.selection_end, Some((2, 5)));
    mouse(&mut app, MouseKind::Drag(MouseButton::Left), 5, 11);
    assert_eq!(app.selection_start, Some((1, 2)));
    assert_eq!(app.selection_end, Some((3, 1)));
}

#[test]
fn drag_without_press_changes_nothing() {
    let mut app = laid_out();
    mouse(&mut app, MouseKind::Drag(MouseButton::Left), 4, 15);
    assert_eq!(app.selection_start, None);
    assert_eq!(app.selection_end, None);
}

#[test]
fn release_ends_drag_and_keeps_selection() {
    let mut app = laid_out();
    mouse(&mut app, MouseKind::Down(MouseButton::Left), 3, 12);
    mouse(&mut app, MouseKind::Drag(MouseButton::Left), 4, 15);
    mouse(&mut app, MouseKind::Up(MouseButton::Left), 4, 15);
    assert!(!app.dragging);
    assert_eq!(app.selection_start, Some((1, 2)));
    assert_eq!(app.selection_end, Some((2, 5)));
    mouse(&mut app, MouseKind::Drag(MouseButton::Left), 5, 15);
    assert_eq!(app.selection_end, Some((2, 5)));
}

#[test]
fn other_buttons_change_nothing() {
    let mut app = laid_out();
    mouse(&mut app, MouseKind::Down(MouseButton::Right), 3, 12);
    mouse(&mut app, MouseKind::Other, 3, 12);
    assert_eq!(app.focus_mode, FocusMode::Input);
    assert_eq!(app.selection_start, None);
}

#[test]
fn enter_submits_typed_text() {
    let mut app = laid_out();
    type_text(&mut app, "hello");
    assert_eq!(app.input.value(), "hello");
    assert!(key(&mut app, KeyCode::Enter));
    assert_eq!(app.messages, vec!["hello".to_string()]);
    assert_eq!(app.input.value(), "");
    type_text(&mut app, "ab");
    key(&mut app, KeyCode::Backspace);
    key(&mut app, KeyCode::Enter);
    assert_eq!(app.messages, vec!["hello".to_string(), "a".to_string()]);
}

#[test]
fn esc_in_input_quits() {
    let mut app = laid_out();
    assert!(!key(&mut app, KeyCode::Esc));
    assert_eq!(app.mode, AppMode::Quit);
}

#[test]
fn esc_in_console_clears_selection() {
    let mut app = laid_out();
    mouse(&mut app, MouseKind::Down(MouseButton::Left), 3, 12);
    assert!(key(&mut app, KeyCode::Esc));
    assert_eq!(app.mode, AppMode::Run);
    assert_eq!(app.focus_mode, FocusMode::Console);
    assert_eq!(app.selection_start, None);
    assert_eq!(app.selection_end, None);
    assert!(!app.dragging);
}

#[test]
fn console_ignores_typing_and_tab_returns_to_input() {
    let mut app = laid_out();
    mouse(&mut app, MouseKind::Down(MouseButton::Left), 3, 12);
    key(&mut app, KeyCode::Char('x'));
    key(&mut app, KeyCode::Enter);
    assert_eq!(app.input.value(), "");
    assert!(app.messages.is_empty());
    key(&mut app, KeyCode::Tab);
    assert_eq!(app.focus_mode, FocusMode::Input);
    assert!(!app.dragging);
    assert_eq!(app.selection_start, Some((1, 2)));
    type_text(&mut app, "y");
    assert_eq!(app.input.value(), "y");
}

#[test]
fn highlight_forward_selection() {
    let s = Some((1, 2));
    let e = Some((3, 1));
    assert_eq!(highlight_line(s, e, 2, "abcd"), vec![true; 4]);
    assert_eq!(highlight_line(s, e, 1, "abcd"), vec![false, false, true, true]);
    assert_eq!(highlight_line(s, e, 3, "abcd"), vec![true, true, false, false]);
    assert_eq!(highlight_line(s, e, 0, "abcd"), vec![false; 4]);
    assert_eq!(highlight_line(s, e, 4, "abcd"), vec![false; 4]);
}

#[test]
fn highlight_upward_selection() {
    let s = Some((3, 1));
    let e = Some((1, 2));
    assert_eq!(highlight_line(s, e, 2, "abcd"), vec![false; 4]);
    assert_eq!(highlight_line(s, e, 3, "abcd"), vec![false, true, true, true]);
    assert_eq!(highlight_line(s, e, 1, "abcd"), vec![true, true, true, false]);
}

#[test]
fn highlight_counts_characters_not_bytes() {
    assert_eq!(highlight_line(Some((0, 1)), Some((0, 1)), 0, "éa€"), vec![true, true, true]);
    assert_eq!(highlight_line(Some((0, 5)), Some((1, 0)), 0, "é€"), vec![false, false]);
    assert!(!is_selected(Some((0, 0)), None, 0, 0));
    assert!(!is_selected(None, None, 0, 0));
}

#[test]
fn highlighted_lines_follow_the_drag() {
    let mut app = laid_out();
    type_text(&mut app, "abc");
    key(&mut app, KeyCode::Enter);
    type_text(&mut app, "de");
    key(&mut app, KeyCode::Enter);
    mouse(&mut app, MouseKind::Down(MouseButton::Left), 2, 11);
    mouse(&mut app, MouseKind::Drag(MouseButton::Left), 3, 10);
    assert_eq!(app.highlighted_lines(), vec![vec![false, true, true], vec![true, false]]);
}

#[test]
fn data_dir_is_working_directory() {
    assert_eq!(get_data_dir(), std::path::PathBuf::from("."));
}


#[test]
fn typing_inserts_at_the_cursor() {
    let mut app = laid_out();
    type_text(&mut app, "ac");
    key(&mut app, KeyCode::Left);
    app.dispatch(AppEvent::UiEvent(TermEvent::Key(KeyPress { code: KeyCode::Char('B'), modifiers: 1 })));
    assert_eq!(app.input.value(), "aBc");
    assert_eq!(app.input.cursor(), 2);
    // control-u clears the line in the editor
    app.dispatch(AppEvent::UiEvent(TermEvent::Key(KeyPress { code: KeyCode::Char('u'), modifiers: 2 })));
    assert_eq!(app.input.value(), "");
}

#[test]
fn drag_above_the_console_wraps_the_row() {
    let mut app = laid_out();
    mouse(&mut app, MouseKind::Down(MouseButton::Left), 3, 12);
    mouse(&mut app, MouseKind::Drag(MouseButton::Left), 0, 12);
    assert_eq!(app.selection_end, Some((65534, 2)));
}

#[test]
fn other_events_change_nothing() {
    let mut app = laid_out();
    assert!(app.dispatch(AppEvent::UiEvent(TermEvent::Other)));
    assert_eq!(app.focus_mode, FocusMode::Input);
    assert_eq!(app.mode, AppMode::Run);
}

#[test]
fn focus_labels() {
    assert_eq!(FocusMode::Input.as_str(), "Input");
    assert_eq!(FocusMode::Console.as_str(), "Console");
}
