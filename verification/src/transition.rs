//! What each message does to the notebook, as functions on its view.
//!
//! Two things are not decided by the notebook itself: the identifier under
//! which a cell is created, and what the edit buffer makes of a key. Both
//! are parameters here (`fresh` and `typed`), so every function is total
//! and exact.

use vstd::prelude::*;
use crate::cell::{CellStatus, CellView};
use crate::cells::CellsView;
use crate::keys::{KeyCode, KeyInput};
use crate::message::{CellsMessageView, MessageView};
use crate::state::{ConfirmDialogButton, ConfirmDialogView, Mode, StateView};

verus! {

/// The notebook after a message, and the statement to run, if the message
/// asked for one: a cell's identifier with its code.
pub struct Outcome {
    pub state: StateView,
    pub request: Option<(u128, Seq<char>)>,
}

/// Nothing to run.
pub open spec fn quiet(state: StateView) -> Outcome {
    Outcome { state, request: None }
}

/// Running the selected cell: if a cell is selected and has code that is
/// not empty, it is marked running and its code is to be run. Otherwise
/// nothing happens.
pub open spec fn execute_current(s: StateView) -> Outcome {
    match s.cells.current {
        Some(id) => if s.cells.cells.contains_key(id) {
            match s.cells.cells[id].code {
                Some(code) => if code.len() > 0 {
                    Outcome {
                        state: StateView {
                            cells: s.cells.with_status(id, CellStatus::Running),
                            ..s
                        },
                        request: Some((id, code)),
                    }
                } else {
                    quiet(s)
                },
                None => quiet(s),
            }
        } else {
            quiet(s)
        },
        None => quiet(s),
    }
}

/// Creating a cell under `fresh`: the cell is added below the selected one
/// and the notebook turns to editing it. Nothing happens if `fresh` is
/// taken.
pub open spec fn create_cell(s: StateView, code: Option<Seq<char>>, fresh: u128) -> StateView {
    if s.cells.cells.contains_key(fresh) {
        s
    } else {
        StateView { cells: s.cells.added(CellView::fresh(fresh, code)), mode: Mode::EditCell, ..s }
    }
}

/// Deleting the selected cell, if there is one.
pub open spec fn delete_current(s: StateView) -> StateView {
    match s.cells.current {
        Some(id) => StateView { cells: s.cells.removed(id), ..s },
        None => s,
    }
}

/// What a cells message does.
pub open spec fn cells_step(s: StateView, m: CellsMessageView, fresh: u128) -> Outcome {
    match m {
        CellsMessageView::ExecuteCurrent => execute_current(s),
        CellsMessageView::SaveCurrent => quiet(StateView { cells: s.cells.saved(), ..s }),
        CellsMessageView::SetResult(id, result) => quiet(
            StateView { cells: s.cells.with_result(id, result), ..s },
        ),
        CellsMessageView::SetError(id, error) => quiet(
            StateView { cells: s.cells.with_failure(id, error), ..s },
        ),
        CellsMessageView::Create(code) => quiet(create_cell(s, code, fresh)),
        CellsMessageView::DeleteCurrent => quiet(delete_current(s)),
    }
}

/// What a message other than a key press does. (A key press does nothing
/// here: keys are read by `key_step`.)
pub open spec fn action_step(s: StateView, m: MessageView, fresh: u128) -> Outcome {
    match m {
        MessageView::ConfirmQuit => quiet(
            StateView { popup: Some(ConfirmDialogView::quit()), ..s },
        ),
        MessageView::Quit => quiet(StateView { quit: true, ..s }),
        MessageView::Cells(cm) => cells_step(s, cm, fresh),
        MessageView::KeyPressed(_) => quiet(s),
    }
}

/// The dialog is gone.
pub open spec fn dismissed(o: Outcome) -> Outcome {
    Outcome { state: StateView { popup: None, ..o.state }, ..o }
}

/// What a key does while `dialog` is up: Enter and Space act on the active
/// button, `y` confirms, Esc and `n` dismiss, Left and Right move between
/// the buttons without wrapping around. No other key does anything.
pub open spec fn popup_step(
    s: StateView,
    dialog: ConfirmDialogView,
    key: KeyInput,
    fresh: u128,
) -> Outcome {
    let confirmed = dismissed(action_step(s, dialog.message, fresh));
    match key.code {
        KeyCode::Enter | KeyCode::Char(' ') => match dialog.active_button {
            ConfirmDialogButton::Yes => confirmed,
            ConfirmDialogButton::No => dismissed(quiet(s)),
        },
        KeyCode::Esc | KeyCode::Char('n') => dismissed(quiet(s)),
        KeyCode::Char('y') => confirmed,
        KeyCode::Right => quiet(
            StateView {
                popup: Some(ConfirmDialogView { active_button: ConfirmDialogButton::No, ..dialog }),
                ..s
            },
        ),
        KeyCode::Left => quiet(
            StateView {
                popup: Some(
                    ConfirmDialogView { active_button: ConfirmDialogButton::Yes, ..dialog },
                ),
                ..s
            },
        ),
        _ => quiet(s),
    }
}

/// Selecting the cell above the selected one, if there is one.
pub open spec fn select_previous(s: StateView) -> StateView {
    match s.cells.current_index() {
        Some(i) => if 0 < i <= s.cells.order.len() {
            StateView { cells: s.cells.switched(s.cells.order[i - 1]), ..s }
        } else {
            s
        },
        None => s,
    }
}

/// Selecting the cell below the selected one, if there is one.
pub open spec fn select_next(s: StateView) -> StateView {
    match s.cells.current_index() {
        Some(i) => if 0 <= i && i + 1 < s.cells.order.len() {
            StateView { cells: s.cells.switched(s.cells.order[i + 1]), ..s }
        } else {
            s
        },
        None => s,
    }
}

/// What a key does while navigating.
pub open spec fn navigate_step(s: StateView, key: KeyInput, fresh: u128) -> Outcome {
    match key.code {
        KeyCode::Char('?') | KeyCode::F(1) => quiet(StateView { show_help: true, ..s }),
        KeyCode::Char('q') => action_step(s, MessageView::ConfirmQuit, fresh),
        KeyCode::Char('x') => execute_current(s),
        KeyCode::Char('n') => quiet(create_cell(s, None, fresh)),
        KeyCode::Char('d') => quiet(StateView { popup: Some(ConfirmDialogView::delete()), ..s }),
        KeyCode::Enter | KeyCode::Left | KeyCode::Char('h') => quiet(
            StateView { mode: Mode::EditCell, ..s },
        ),
        KeyCode::Up | KeyCode::Char('k') => quiet(select_previous(s)),
        KeyCode::Down | KeyCode::Char('j') => quiet(select_next(s)),
        _ => quiet(s),
    }
}

/// True of the chord that runs a cell from the editor: Ctrl with `x`.
pub open spec fn is_execute_chord(key: KeyInput) -> bool {
    key.code == KeyCode::Char('x') && key.ctrl
}

/// What a key does while editing: the chord saves and runs the cell, Esc
/// saves and goes back to navigating, and every other key goes to the edit
/// buffer, which then holds the lines `typed`.
pub open spec fn edit_step(s: StateView, key: KeyInput, typed: Seq<Seq<char>>) -> Outcome {
    if is_execute_chord(key) {
        execute_current(StateView { cells: s.cells.saved(), ..s })
    } else if key.code == KeyCode::Esc {
        quiet(StateView { cells: s.cells.saved(), mode: Mode::Navigate, ..s })
    } else {
        quiet(StateView { cells: CellsView { buffer: typed, ..s.cells }, ..s })
    }
}

/// The key that a message hands to the edit buffer, if it hands it one: a
/// key pressed while editing with no dialog up, other than Esc and the
/// chord that runs the cell.
pub open spec fn forwarded_key(s: StateView, m: MessageView) -> Option<KeyInput> {
    match m {
        MessageView::KeyPressed(key) => if s.popup is None && s.mode == Mode::EditCell
            && !is_execute_chord(key) && key.code != KeyCode::Esc {
            Some(key)
        } else {
            None
        },
        _ => None,
    }
}

/// What a key does: a dialog takes every key while it is up; otherwise the
/// mode decides.
pub open spec fn key_step(
    s: StateView,
    key: KeyInput,
    fresh: u128,
    typed: Seq<Seq<char>>,
) -> Outcome {
    match s.popup {
        Some(dialog) => popup_step(s, dialog, key, fresh),
        None => match s.mode {
            Mode::Navigate => navigate_step(s, key, fresh),
            Mode::EditCell => edit_step(s, key, typed),
        },
    }
}

/// What a message does to the notebook. Help is hidden first, whatever the
/// message; only the help key shows it again.
///
/// `fresh` is the identifier that a cell gets if the message creates one,
/// `typed` the lines that the edit buffer holds afterwards if the message
/// is a key that goes to it.
pub open spec fn step(s: StateView, m: MessageView, fresh: u128, typed: Seq<Seq<char>>) -> Outcome {
    let s = StateView { show_help: false, ..s };
    match m {
        MessageView::KeyPressed(key) => key_step(s, key, fresh, typed),
        _ => action_step(s, m, fresh),
    }
}

/// One thing that happens to the notebook: a message, with the identifier
/// at hand for a new cell and the lines that the edit buffer holds after a
/// key went to it.
pub struct Event {
    pub message: MessageView,
    pub fresh: u128,
    pub typed: Seq<Seq<char>>,
}

/// The notebook after all of `events`, one after the other, from state `s`.
pub open spec fn after_all(s: StateView, events: Seq<Event>) -> StateView
    decreases events.len(),
{
    if events.len() == 0 {
        s
    } else {
        let last = events.last();
        step(after_all(s, events.drop_last()), last.message, last.fresh, last.typed).state
    }
}

/// True if `events` is not empty and its last event, coming after the
/// others from state `s`, asks for a statement to be run.
#[verifier::opaque]
pub open spec fn last_asks_to_run(s: StateView, events: Seq<Event>) -> bool {
    events.len() > 0 && step(
        after_all(s, events.drop_last()),
        events.last().message,
        events.last().fresh,
        events.last().typed,
    ).request is Some
}

} // verus!
