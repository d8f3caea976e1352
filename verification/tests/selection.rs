use hotshot::geometry::Region;
use hotshot::selection::{
    coalesce_motions, run_selection, selection_step, SelectionAction, SelectionEvent,
    SelectionOutcome, SelectionState, ESCAPE_KEYCODE, SELECT_BUTTON,
};

fn press(x: i16, y: i16) -> SelectionEvent {
    SelectionEvent::ButtonPress { x, y, button: SELECT_BUTTON }
}

fn motion(x: i16, y: i16) -> SelectionEvent {
    SelectionEvent::Motion { x, y }
}

fn release(x: i16, y: i16) -> SelectionEvent {
    SelectionEvent::ButtonRelease { x, y, button: SELECT_BUTTON }
}

fn escape() -> SelectionEvent {
    SelectionEvent::KeyPress { keycode: ESCAPE_KEYCODE }
}

#[test]
fn synthetic_drag_captures_the_normalised_rectangle() {
    let events = vec![press(100, 100), motion(300, 400), release(300, 400)];
    let outcome = run_selection(&events, 1920, 1080);
    assert_eq!(
        outcome,
        SelectionOutcome::Captured {
            region: Region { x: 100, y: 100, width: 200, height: 300 }
        }
    );
}

#[test]
fn zero_area_release_keeps_the_session_running() {
    // A click without movement has zero area: back to idle, not terminated.
    let events = vec![press(50, 50), release(50, 50)];
    let outcome = run_selection(&events, 800, 600);
    assert_eq!(outcome, SelectionOutcome::Pending { state: SelectionState::Idle });

    // A subsequent valid drag in the same session still captures.
    let events = vec![
        press(50, 50),
        release(50, 50),
        press(10, 10),
        motion(110, 60),
        release(110, 60),
    ];
    let outcome = run_selection(&events, 800, 600);
    assert_eq!(
        outcome,
        SelectionOutcome::Captured { region: Region { x: 10, y: 10, width: 100, height: 50 } }
    );
}

#[test]
fn escape_cancels_whether_or_not_dragging() {
    let outcome = run_selection(&vec![escape()], 800, 600);
    assert_eq!(outcome, SelectionOutcome::Cancelled);

    let outcome = run_selection(&vec![press(10, 10), motion(20, 20), escape()], 800, 600);
    assert_eq!(outcome, SelectionOutcome::Cancelled);

    // Events after the escape are not consumed.
    let outcome = run_selection(
        &vec![press(10, 10), escape(), press(1, 1), motion(5, 5), release(5, 5)],
        800,
        600,
    );
    assert_eq!(outcome, SelectionOutcome::Cancelled);
}

#[test]
fn other_buttons_and_keys_are_ignored() {
    let events = vec![
        SelectionEvent::ButtonPress { x: 5, y: 5, button: 3 },
        SelectionEvent::KeyPress { keycode: 38 },
        SelectionEvent::Other,
    ];
    let outcome = run_selection(&events, 800, 600);
    assert_eq!(outcome, SelectionOutcome::Pending { state: SelectionState::Idle });
}

#[test]
fn motion_while_dragging_redraws_the_selection() {
    let state = SelectionState::Dragging { origin_x: 10, origin_y: 10, cur_x: 10, cur_y: 10 };
    let (next, action) = selection_step(state, motion(40, 30), 800, 600);
    assert_eq!(
        next,
        SelectionState::Dragging { origin_x: 10, origin_y: 10, cur_x: 40, cur_y: 30 }
    );
    assert_eq!(
        action,
        SelectionAction::Redraw {
            selection: Some(Region { x: 10, y: 10, width: 30, height: 20 })
        }
    );
}

#[test]
fn motion_while_idle_is_ignored() {
    let (next, action) = selection_step(SelectionState::Idle, motion(40, 30), 800, 600);
    assert_eq!(next, SelectionState::Idle);
    assert_eq!(action, SelectionAction::Wait);
}

#[test]
fn expose_redraws_the_current_state() {
    let (_, action) = selection_step(SelectionState::Idle, SelectionEvent::Expose, 800, 600);
    assert_eq!(action, SelectionAction::Redraw { selection: None });
}

#[test]
fn coalesce_collapses_motion_runs_to_the_latest() {
    let events = vec![
        motion(1, 1),
        motion(2, 2),
        motion(3, 3),
        press(9, 9),
        motion(4, 4),
        motion(5, 5),
    ];
    let coalesced = coalesce_motions(&events);
    assert_eq!(coalesced, vec![motion(3, 3), press(9, 9), motion(5, 5)]);

    // Coalescing does not change where the session ends up.
    let full = vec![press(0, 0), motion(1, 1), motion(2, 2), motion(10, 20), release(10, 20)];
    let short = coalesce_motions(&full);
    assert_eq!(run_selection(&full, 800, 600), run_selection(&short, 800, 600));
}
