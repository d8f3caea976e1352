//! The interactive region-selection state machine.
//!
//! The event loop that blocks on the display server lives outside the
//! library; it feeds every event through [`selection_step`], the single
//! dispatch point, and performs the returned action.  The machine itself is
//! pure: state and event in, state and action out.

use vstd::prelude::*;

use crate::geometry::{spec_selection, compute_selection, Region};

verus! {

/// The keycode that cancels the interactive selection in any state.
pub const ESCAPE_KEYCODE: u8 = 9;

/// The pointer button that starts and ends a drag.
pub const SELECT_BUTTON: u8 = 1;

/// Where the selection session stands between events.
#[derive(Debug, Clone, Copy, PartialEq, Eq, Structural)]
pub enum SelectionState {
    /// No drag in progress.
    Idle,
    /// The button is held; the drag origin and the current pointer position
    /// are tracked.
    Dragging { origin_x: i16, origin_y: i16, cur_x: i16, cur_y: i16 },
}

/// One input event handed to the state machine by the event loop.
#[derive(Debug, Clone, Copy, PartialEq, Eq, Structural)]
pub enum SelectionEvent {
    /// The overlay window became visible or was damaged.
    Expose,
    ButtonPress { x: i16, y: i16, button: u8 },
    Motion { x: i16, y: i16 },
    ButtonRelease { x: i16, y: i16, button: u8 },
    KeyPress { keycode: u8 },
    /// Any event class the machine ignores.
    Other,
}

/// What the event loop must do after a step.
#[derive(Debug, Clone, Copy, PartialEq, Eq, Structural)]
pub enum SelectionAction {
    /// Keep waiting for the next event.
    Wait,
    /// Redraw the overlay, with the given selection rectangle cut out of the
    /// dim layer (or fully dimmed when there is none).
    Redraw { selection: Option<Region> },
    /// Extract the pixels of the rectangle and return them: the session ends.
    Capture { region: Region },
    /// The session ends cancelled.
    Cancel,
}

/// The selection rectangle currently shown for a state: the normalised drag
/// while dragging, nothing while idle.
pub open spec fn spec_state_selection(state: SelectionState, sw: int, sh: int) -> Option<Region> {
    match state {
        SelectionState::Idle => Option::None,
        SelectionState::Dragging { origin_x, origin_y, cur_x, cur_y } => Option::Some(
            spec_selection(origin_x as int, origin_y as int, cur_x as int, cur_y as int, sw, sh),
        ),
    }
}

/// The transition relation of the machine, on a screen of `sw` by `sh`
/// pixels:
/// - an expose redraws the current state's selection;
/// - a select-button press records the drag origin and starts dragging;
/// - a pointer motion while dragging moves the current corner and redraws;
/// - a select-button release while dragging captures the normalised
///   rectangle if it has positive area, and otherwise returns to `Idle`
///   with the session still running;
/// - an escape key press cancels, whatever the state;
/// - everything else is ignored.
pub open spec fn spec_step(
    state: SelectionState,
    event: SelectionEvent,
    sw: int,
    sh: int,
) -> (SelectionState, SelectionAction) {
    match event {
        SelectionEvent::KeyPress { keycode } => {
            if keycode == ESCAPE_KEYCODE {
                (state, SelectionAction::Cancel)
            } else {
                (state, SelectionAction::Wait)
            }
        },
        SelectionEvent::Expose => (
            state,
            SelectionAction::Redraw { selection: spec_state_selection(state, sw, sh) },
        ),
        SelectionEvent::ButtonPress { x, y, button } => {
            if button == SELECT_BUTTON {
                (
                    SelectionState::Dragging { origin_x: x, origin_y: y, cur_x: x, cur_y: y },
                    SelectionAction::Wait,
                )
            } else {
                (state, SelectionAction::Wait)
            }
        },
        SelectionEvent::Motion { x, y } => {
            match state {
                SelectionState::Dragging { origin_x, origin_y, .. } => {
                    let moved = SelectionState::Dragging {
                        origin_x,
                        origin_y,
                        cur_x: x,
                        cur_y: y,
                    };
                    (
                        moved,
                        SelectionAction::Redraw {
                            selection: spec_state_selection(moved, sw, sh),
                        },
                    )
                },
                SelectionState::Idle => (state, SelectionAction::Wait),
            }
        },
        SelectionEvent::ButtonRelease { x, y, button } => {
            if button == SELECT_BUTTON {
                match state {
                    SelectionState::Dragging { origin_x, origin_y, .. } => {
                        let r = spec_selection(
                            origin_x as int,
                            origin_y as int,
                            x as int,
                            y as int,
                            sw,
                            sh,
                        );
                        if r.width > 0 && r.height > 0 {
                            (SelectionState::Idle, SelectionAction::Capture { region: r })
                        } else {
                            (SelectionState::Idle, SelectionAction::Wait)
                        }
                    },
                    SelectionState::Idle => (state, SelectionAction::Wait),
                }
            } else {
                (state, SelectionAction::Wait)
            }
        },
        SelectionEvent::Other => (state, SelectionAction::Wait),
    }
}

/// Advance the selection machine by one event.
pub fn selection_step(
    state: SelectionState,
    event: SelectionEvent,
    sw: u16,
    sh: u16,
) -> (r: (SelectionState, SelectionAction))
    ensures
        r == spec_step(state, event, sw as int, sh as int),
{
    match event {
        SelectionEvent::KeyPress { keycode } => {
            if keycode == ESCAPE_KEYCODE {
                (state, SelectionAction::Cancel)
            } else {
                (state, SelectionAction::Wait)
            }
        },
        SelectionEvent::Expose => {
            let sel = state_selection(state, sw, sh);
            (state, SelectionAction::Redraw { selection: sel })
        },
        SelectionEvent::ButtonPress { x, y, button } => {
            if button == SELECT_BUTTON {
                (
                    SelectionState::Dragging { origin_x: x, origin_y: y, cur_x: x, cur_y: y },
                    SelectionAction::Wait,
                )
            } else {
                (state, SelectionAction::Wait)
            }
        },
        SelectionEvent::Motion { x, y } => {
            match state {
                SelectionState::Dragging { origin_x, origin_y, .. } => {
                    let moved = SelectionState::Dragging {
                        origin_x,
                        origin_y,
                        cur_x: x,
                        cur_y: y,
                    };
                    let sel = state_selection(moved, sw, sh);
                    (moved, SelectionAction::Redraw { selection: sel })
                },
                SelectionState::Idle => (state, SelectionAction::Wait),
            }
        },
        SelectionEvent::ButtonRelease { x, y, button } => {
            if button == SELECT_BUTTON {
                match state {
                    SelectionState::Dragging { origin_x, origin_y, .. } => {
                        let r = compute_selection(origin_x, origin_y, x, y, sw, sh);
                        if r.width > 0 && r.height > 0 {
                            (SelectionState::Idle, SelectionAction::Capture { region: r })
                        } else {
                            (SelectionState::Idle, SelectionAction::Wait)
                        }
                    },
                    SelectionState::Idle => (state, SelectionAction::Wait),
                }
            } else {
                (state, SelectionAction::Wait)
            }
        },
        SelectionEvent::Other => (state, SelectionAction::Wait),
    }
}

/// The selection rectangle currently shown for a state.
pub fn state_selection(state: SelectionState, sw: u16, sh: u16) -> (r: Option<Region>)
    ensures
        r == spec_state_selection(state, sw as int, sh as int),
{
    match state {
        SelectionState::Idle => Option::None,
        SelectionState::Dragging { origin_x, origin_y, cur_x, cur_y } => Option::Some(
            compute_selection(origin_x, origin_y, cur_x, cur_y, sw, sh),
        ),
    }
}

/// How a whole selection session ends, or where it stands after the events
/// seen so far.
#[derive(Debug, Clone, Copy, PartialEq, Eq, Structural)]
pub enum SelectionOutcome {
    /// The session is still waiting for events.
    Pending { state: SelectionState },
    /// A rectangle with positive area was selected.
    Captured { region: Region },
    /// The escape key ended the session.
    Cancelled,
}

/// Run the machine over a whole event sequence, starting from `state`.
pub open spec fn spec_run(
    events: Seq<SelectionEvent>,
    state: SelectionState,
    sw: int,
    sh: int,
) -> SelectionOutcome
    decreases events.len(),
{
    if events.len() == 0 {
        SelectionOutcome::Pending { state }
    } else {
        let (next, action) = spec_step(state, events[0], sw, sh);
        match action {
            SelectionAction::Capture { region } => SelectionOutcome::Captured { region },
            SelectionAction::Cancel => SelectionOutcome::Cancelled,
            _ => spec_run(events.drop_first(), next, sw, sh),
        }
    }
}

/// Drive one selection session over a sequence of events, from the idle
/// state.  The session ends at the first capturing release or escape press;
/// events after that are not consumed.
pub fn run_selection(events: &Vec<SelectionEvent>, sw: u16, sh: u16) -> (r: SelectionOutcome)
    ensures
        r == spec_run(events@, SelectionState::Idle, sw as int, sh as int),
{
    let mut state = SelectionState::Idle;
    let mut i: usize = 0;
    proof {
        assert(events@.subrange(0, events@.len() as int) =~= events@);
    }
    while i < events.len()
        invariant
            i <= events@.len(),
            spec_run(events@, SelectionState::Idle, sw as int, sh as int) == spec_run(
                events@.subrange(i as int, events@.len() as int),
                state,
                sw as int,
                sh as int,
            ),
        decreases events@.len() - i,
    {
        let ghost rest = events@.subrange(i as int, events@.len() as int);
        let (next, action) = selection_step(state, events[i], sw, sh);
        proof {
            assert(rest[0] == events@[i as int]);
            assert(rest.drop_first() =~= events@.subrange(i as int + 1, events@.len() as int));
        }
        match action {
            SelectionAction::Capture { region } => {
                return SelectionOutcome::Captured { region };
            },
            SelectionAction::Cancel => {
                return SelectionOutcome::Cancelled;
            },
            _ => {},
        }
        state = next;
        i = i + 1;
    }
    SelectionOutcome::Pending { state }
}

/// A backlog of queued events with each run of back-to-back pointer motions
/// collapsed to its latest position: a motion directly followed by another
/// motion is dropped.
pub open spec fn spec_coalesce(events: Seq<SelectionEvent>) -> Seq<SelectionEvent>
    decreases events.len(),
{
    if events.len() == 0 {
        Seq::empty()
    } else if events.len() >= 2 && events[0] is Motion && events[1] is Motion {
        spec_coalesce(events.drop_first())
    } else {
        seq![events[0]] + spec_coalesce(events.drop_first())
    }
}

/// Collapse each run of back-to-back pointer motions in a drained event
/// backlog to its latest position, so a redraw storm becomes one redraw.
pub fn coalesce_motions(events: &Vec<SelectionEvent>) -> (r: Vec<SelectionEvent>)
    ensures
        r@ == spec_coalesce(events@),
{
    let n = events.len();
    let mut out: Vec<SelectionEvent> = Vec::new();
    let mut i: usize = 0;
    proof {
        assert(events@.subrange(0, n as int) =~= events@);
    }
    while i < n
        invariant
            n == events@.len(),
            i <= n,
            spec_coalesce(events@) == out@ + spec_coalesce(events@.subrange(i as int, n as int)),
        decreases n - i,
    {
        let ghost rest = events@.subrange(i as int, n as int);
        proof {
            assert(rest[0] == events@[i as int]);
            assert(rest.drop_first() =~= events@.subrange(i as int + 1, n as int));
            if rest.len() >= 2 {
                assert(rest[1] == events@[i as int + 1]);
            }
        }
        let drop_this = match events[i] {
            SelectionEvent::Motion { .. } => {
                if i + 1 < n {
                    match events[i + 1] {
                        SelectionEvent::Motion { .. } => true,
                        _ => false,
                    }
                } else {
                    false
                }
            },
            _ => false,
        };
        if !drop_this {
            out.push(events[i]);
        }
        i = i + 1;
    }
    proof {
        assert(spec_coalesce(events@.subrange(n as int, n as int)) =~= Seq::<
            SelectionEvent,
        >::empty());
    }
    out
}

/// Dropping a motion that another motion directly follows does not change
/// where the machine ends up: the session's outcome over the coalesced
/// backlog equals its outcome over the full backlog.
pub proof fn lemma_coalesce_preserves_outcome(
    events: Seq<SelectionEvent>,
    state: SelectionState,
    sw: int,
    sh: int,
)
    ensures
        spec_run(spec_coalesce(events), state, sw, sh) == spec_run(events, state, sw, sh),
    decreases events.len(),
{
    if events.len() == 0 {
    } else if events.len() >= 2 && events[0] is Motion && events[1] is Motion {
        let st1 = spec_step(state, events[0], sw, sh).0;
        let tail = events.drop_first();
        assert(tail[0] == events[1]);
        // The dropped motion only moves the current corner, which the next
        // motion overwrites: both states step identically on it.
        assert(spec_step(st1, events[1], sw, sh) == spec_step(state, events[1], sw, sh));
        assert(spec_run(tail, st1, sw, sh) == spec_run(tail, state, sw, sh));
        lemma_coalesce_preserves_outcome(tail, state, sw, sh);
    } else {
        let tail = events.drop_first();
        let (next, action) = spec_step(state, events[0], sw, sh);
        lemma_coalesce_preserves_outcome(tail, next, sw, sh);
        assert(spec_coalesce(events) == seq![events[0]] + spec_coalesce(tail));
        assert((seq![events[0]] + spec_coalesce(tail))[0] == events[0]);
        assert((seq![events[0]] + spec_coalesce(tail)).drop_first() =~= spec_coalesce(tail));
    }
}

/// Processing more events after a still-pending prefix continues from the
/// state the prefix reached: a session is one run, however its events are
/// delivered.
pub proof fn lemma_run_append(
    events: Seq<SelectionEvent>,
    more: Seq<SelectionEvent>,
    state: SelectionState,
    mid: SelectionState,
    sw: int,
    sh: int,
)
    requires
        spec_run(events, state, sw, sh) == (SelectionOutcome::Pending { state: mid }),
    ensures
        spec_run(events + more, state, sw, sh) == spec_run(more, mid, sw, sh),
    decreases events.len(),
{
    if events.len() == 0 {
        assert(events + more =~= more);
    } else {
        let (next, action) = spec_step(state, events[0], sw, sh);
        assert((events + more)[0] == events[0]);
        match action {
            SelectionAction::Capture { .. } => {},
            SelectionAction::Cancel => {},
            _ => {
                assert((events + more).drop_first() =~= events.drop_first() + more);
                lemma_run_append(events.drop_first(), more, next, mid, sw, sh);
            },
        }
    }
}

/// A release that normalises to a zero-area rectangle does not terminate the
/// session: the machine returns to `Idle` and keeps waiting.
pub proof fn lemma_zero_area_release_continues(
    state: SelectionState,
    x: i16,
    y: i16,
    sw: int,
    sh: int,
)
    requires
        state is Dragging,
        ({
            let r = spec_selection(
                state->Dragging_origin_x as int,
                state->Dragging_origin_y as int,
                x as int,
                y as int,
                sw,
                sh,
            );
            r.width == 0 || r.height == 0
        }),
    ensures
        spec_step(
            state,
            SelectionEvent::ButtonRelease { x, y, button: SELECT_BUTTON },
            sw,
            sh,
        ) == (SelectionState::Idle, SelectionAction::Wait),
{
}

/// From the idle state, a press, a motion and a release whose normalised
/// rectangle has positive area capture exactly that rectangle.
pub proof fn lemma_valid_drag_captures(px: i16, py: i16, qx: i16, qy: i16, sw: int, sh: int)
    requires
        spec_selection(px as int, py as int, qx as int, qy as int, sw, sh).width > 0,
        spec_selection(px as int, py as int, qx as int, qy as int, sw, sh).height > 0,
    ensures
        spec_run(
            seq![
                SelectionEvent::ButtonPress { x: px, y: py, button: SELECT_BUTTON },
                SelectionEvent::Motion { x: qx, y: qy },
                SelectionEvent::ButtonRelease { x: qx, y: qy, button: SELECT_BUTTON },
            ],
            SelectionState::Idle,
            sw,
            sh,
        ) == (SelectionOutcome::Captured {
            region: spec_selection(px as int, py as int, qx as int, qy as int, sw, sh),
        }),
{
    let events = seq![
        SelectionEvent::ButtonPress { x: px, y: py, button: SELECT_BUTTON },
        SelectionEvent::Motion { x: qx, y: qy },
        SelectionEvent::ButtonRelease { x: qx, y: qy, button: SELECT_BUTTON },
    ];
    assert(events.drop_first() =~= seq![
        SelectionEvent::Motion { x: qx, y: qy },
        SelectionEvent::ButtonRelease { x: qx, y: qy, button: SELECT_BUTTON },
    ]);
    assert(events.drop_first().drop_first() =~= seq![
        SelectionEvent::ButtonRelease { x: qx, y: qy, button: SELECT_BUTTON },
    ]);
    let s1 = SelectionState::Dragging { origin_x: px, origin_y: py, cur_x: px, cur_y: py };
    let s2 = SelectionState::Dragging { origin_x: px, origin_y: py, cur_x: qx, cur_y: qy };
    assert(spec_step(SelectionState::Idle, events[0], sw, sh) == (s1, SelectionAction::Wait));
    assert(spec_step(s1, events[1], sw, sh).0 == s2);
    assert(events.drop_first()[0] == events[1]);
    assert(events.drop_first().drop_first()[0] == events[2]);
    assert(spec_run(events, SelectionState::Idle, sw, sh) == spec_run(
        events.drop_first(),
        s1,
        sw,
        sh,
    ));
    assert(spec_run(events.drop_first(), s1, sw, sh) == spec_run(
        events.drop_first().drop_first(),
        s2,
        sw,
        sh,
    ));
    assert(spec_run(events.drop_first().drop_first(), s2, sw, sh) == (SelectionOutcome::Captured {
        region: spec_selection(px as int, py as int, qx as int, qy as int, sw, sh),
    }));
}

/// An escape key press ends a still-pending session as cancelled, whether or
/// not a drag was in progress.
pub proof fn lemma_escape_cancels(
    events: Seq<SelectionEvent>,
    state: SelectionState,
    mid: SelectionState,
    sw: int,
    sh: int,
)
    requires
        spec_run(events, state, sw, sh) == (SelectionOutcome::Pending { state: mid }),
    ensures
        spec_run(
            events + seq![SelectionEvent::KeyPress { keycode: ESCAPE_KEYCODE }],
            state,
            sw,
            sh,
        ) == SelectionOutcome::Cancelled,
{
    lemma_run_append(
        events,
        seq![SelectionEvent::KeyPress { keycode: ESCAPE_KEYCODE }],
        state,
        mid,
        sw,
        sh,
    );
}

} // verus!
