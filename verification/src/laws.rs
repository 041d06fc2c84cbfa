//! What holds of the notebook whatever happens to it.

use vstd::prelude::*;
use crate::cell::CellView;
use crate::cells::{
    code_text, lemma_added_wf, lemma_removed_wf, lemma_saved_wf, lemma_updated_wf, CellsView,
};
use crate::keys::{KeyCode, KeyInput};
use crate::message::{CellsMessageView, MessageView};
use crate::state::{ConfirmDialogButton, Mode, StateView};
use crate::text::{are_lines, lemma_join_split, lemma_split_join};
use crate::transition::{action_step, after_all, select_next, select_previous, step, Event};

verus! {

/// The order names exactly the cells that exist, and the selected cell is
/// one of them or none: this holds at startup and is kept by every message,
/// whichever identifier a new cell gets and whatever the edit buffer makes
/// of a key.
pub proof fn lemma_step_keeps_wf(
    s: StateView,
    m: MessageView,
    fresh: u128,
    typed: Seq<Seq<char>>,
)
    requires
        s.wf(),
    ensures
        StateView::initial().wf(),
        step(s, m, fresh, typed).state.wf(),
        step(s, m, fresh, typed).state.cells.order.to_set() =~= step(
            s,
            m,
            fresh,
            typed,
        ).state.cells.cells.dom(),
        match step(s, m, fresh, typed).state.cells.current {
            Some(id) => step(s, m, fresh, typed).state.cells.order.contains(id),
            None => true,
        },
{
    let s0 = StateView { show_help: false, ..s };
    match m {
        MessageView::KeyPressed(key) => {
            match s0.popup {
                Some(dialog) => {
                    lemma_action_keeps_wf(s0, dialog.message, fresh);
                },
                None => match s0.mode {
                    Mode::Navigate => {
                        lemma_action_keeps_wf(s0, MessageView::ConfirmQuit, fresh);
                        lemma_action_keeps_wf(
                            s0,
                            MessageView::Cells(CellsMessageView::ExecuteCurrent),
                            fresh,
                        );
                        lemma_action_keeps_wf(
                            s0,
                            MessageView::Cells(CellsMessageView::Create(None)),
                            fresh,
                        );
                        lemma_select_keeps_wf(s0);
                    },
                    Mode::EditCell => {
                        lemma_saved_wf(s0.cells);
                        let saved = StateView { cells: s0.cells.saved(), ..s0 };
                        lemma_action_keeps_wf(
                            saved,
                            MessageView::Cells(CellsMessageView::ExecuteCurrent),
                            fresh,
                        );
                    },
                },
            }
        },
        _ => {
            lemma_action_keeps_wf(s0, m, fresh);
        },
    }
    assert(StateView::initial().wf());
}

/// Every state that the notebook can reach from its start is well formed:
/// the order and the cells name the same identifiers, and the selected
/// cell, if any, is in the order.
pub proof fn lemma_reachable_states_are_wf(events: Seq<Event>)
    ensures
        after_all(StateView::initial(), events).wf(),
        after_all(StateView::initial(), events).cells.order.to_set() =~= after_all(
            StateView::initial(),
            events,
        ).cells.cells.dom(),
        match after_all(StateView::initial(), events).cells.current {
            Some(id) => after_all(StateView::initial(), events).cells.order.contains(id),
            None => true,
        },
    decreases events.len(),
{
    if events.len() == 0 {
        let s = StateView::initial();
        assert(s.wf());
        assert(s.cells.order.to_set() =~= s.cells.cells.dom());
    } else {
        let last = events.last();
        lemma_reachable_states_are_wf(events.drop_last());
        lemma_step_keeps_wf(
            after_all(StateView::initial(), events.drop_last()),
            last.message,
            last.fresh,
            last.typed,
        );
    }
}

/// Moving the selection up or down keeps a notebook well formed.
pub proof fn lemma_select_keeps_wf(s: StateView)
    requires
        s.wf(),
    ensures
        select_previous(s).wf(),
        select_next(s).wf(),
{
}

/// Every message other than a key press keeps a notebook well formed.
pub proof fn lemma_action_keeps_wf(s: StateView, m: MessageView, fresh: u128)
    requires
        s.wf(),
    ensures
        action_step(s, m, fresh).state.wf(),
{
    match m {
        MessageView::Cells(cm) => match cm {
            CellsMessageView::ExecuteCurrent => {
                if let Some(id) = s.cells.current {
                    lemma_updated_wf(
                        s.cells,
                        id,
                        |c: CellView| CellView { status: crate::cell::CellStatus::Running, ..c },
                    );
                }
            },
            CellsMessageView::SaveCurrent => {
                lemma_saved_wf(s.cells);
            },
            CellsMessageView::SetResult(id, result) => {
                lemma_updated_wf(
                    s.cells,
                    id,
                    |c: CellView|
                        CellView {
                            result: Some(result),
                            status: crate::cell::CellStatus::Finished,
                            ..c
                        },
                );
            },
            CellsMessageView::SetError(id, error) => {
                lemma_updated_wf(
                    s.cells,
                    id,
                    |c: CellView|
                        CellView {
                            error: Some(error),
                            status: crate::cell::CellStatus::Failed,
                            ..c
                        },
                );
            },
            CellsMessageView::Create(code) => {
                lemma_added_wf(s.cells, CellView::fresh(fresh, code));
            },
            CellsMessageView::DeleteCurrent => {
                if let Some(id) = s.cells.current {
                    lemma_removed_wf(s.cells, id);
                }
            },
        },
        _ => {},
    }
}

/// Down on the last cell and Up on the first change nothing but to hide
/// help: the selection stays, and so does the order.
pub proof fn lemma_moving_past_the_ends(
    s: StateView,
    key: KeyInput,
    fresh: u128,
    typed: Seq<Seq<char>>,
)
    requires
        s.wf(),
        s.popup is None,
        s.mode == Mode::Navigate,
        s.cells.current is Some,
        ({
            ||| (key.code == KeyCode::Down || key.code == KeyCode::Char('j'))
                && s.cells.current_index() == Some(s.cells.order.len() - 1)
            ||| (key.code == KeyCode::Up || key.code == KeyCode::Char('k'))
                && s.cells.current_index() == Some(0int)
        }),
    ensures
        step(s, MessageView::KeyPressed(key), fresh, typed).state == (StateView {
            show_help: false,
            ..s
        }),
        step(s, MessageView::KeyPressed(key), fresh, typed).state.cells.current == s.cells.current,
        step(s, MessageView::KeyPressed(key), fresh, typed).state.cells.order == s.cells.order,
        step(s, MessageView::KeyPressed(key), fresh, typed).request is None,
{
}

/// Saving the edit buffer and then selecting the same cell again leaves in
/// the buffer exactly the text that was saved.
pub proof fn lemma_save_then_switch(s: CellsView, id: u128)
    requires
        s.current == Some(id),
        s.cells.contains_key(id),
    ensures
        s.saved().cells[id].code == Some(s.buffer_text()),
        s.saved().switched(id).buffer_text() == s.buffer_text(),
        s.saved().switched(id).cells == s.saved().cells,
        s.saved().switched(id).current == Some(id),
{
    lemma_join_split(s.buffer_text());
}

/// Saving the edit buffer and then selecting the same cell again leaves in
/// the buffer the very lines it held, as long as these are lines as an
/// editor holds them: at least one, and none with a line feed in it.
pub proof fn lemma_save_then_switch_lines(s: CellsView, id: u128)
    requires
        s.current == Some(id),
        s.cells.contains_key(id),
        are_lines(s.buffer),
    ensures
        s.saved().switched(id).buffer == s.buffer,
{
    lemma_split_join(s.buffer);
}

/// Whatever cell is selected, the buffer then holds that cell's code, and
/// no code at all shows as an empty buffer.
pub proof fn lemma_switch_shows_code(s: CellsView, id: u128)
    requires
        s.cells.contains_key(id),
    ensures
        s.switched(id).buffer_text() == code_text(s.cells[id].code),
        s.switched(id).current == Some(id),
{
    lemma_join_split(code_text(s.cells[id].code));
}

/// Deleting the selected cell: the only cell leaves none selected; a cell
/// that is not the last leaves selected the cell that followed it, which
/// now stands where the deleted one stood; the last cell leaves selected
/// the cell that is now the last.
pub proof fn lemma_delete_policy(s: CellsView, i: int)
    requires
        s.wf(),
        0 <= i < s.order.len(),
        s.current == Some(s.order[i]),
    ensures
        s.removed(s.order[i]).order == s.order.remove(i),
        s.removed(s.order[i]).cells == s.cells.remove(s.order[i]),
        s.order.len() == 1 ==> s.removed(s.order[i]).current is None,
        i + 1 < s.order.len() ==> s.removed(s.order[i]).current == Some(s.order[i + 1])
            && s.removed(s.order[i]).order[i] == s.order[i + 1],
        i + 1 == s.order.len() && i > 0 ==> s.removed(s.order[i]).current == Some(s.order[i - 1])
            && s.removed(s.order[i]).order.last() == s.order[i - 1],
{
    let id = s.order[i];
    s.order.index_of_first_ensures(id);
    assert(s.order.index_of_first(id) == Some(i));
    let rest = CellsView { cells: s.cells.remove(id), order: s.order.remove(i), ..s };
    if i + 1 < s.order.len() {
        assert(rest.order[i] == s.order[i + 1]);
        assert(s.order.contains(s.order[i + 1]));
    } else if i > 0 {
        assert(rest.order[i - 1] == s.order[i - 1]);
        assert(s.order.contains(s.order[i - 1]));
    }
}

/// The message that deletes the selected cell removes exactly that cell,
/// and does nothing when no cell is selected.
pub proof fn lemma_delete_current(s: StateView, fresh: u128, typed: Seq<Seq<char>>)
    ensures
        step(
            s,
            MessageView::Cells(CellsMessageView::DeleteCurrent),
            fresh,
            typed,
        ).state == match s.cells.current {
            Some(id) => StateView { cells: s.cells.removed(id), show_help: false, ..s },
            None => StateView { show_help: false, ..s },
        },
{
}

/// While a dialog is up, a key that does not confirm it reaches neither
/// the cells nor the mode, and nothing is run.
pub proof fn lemma_dialog_captures_keys(
    s: StateView,
    key: KeyInput,
    fresh: u128,
    typed: Seq<Seq<char>>,
)
    requires
        s.popup is Some,
        key.code != KeyCode::Char('y'),
        (key.code == KeyCode::Enter || key.code == KeyCode::Char(' ')) ==> s.popup->0.active_button
            == ConfirmDialogButton::No,
    ensures
        step(s, MessageView::KeyPressed(key), fresh, typed).state.cells == s.cells,
        step(s, MessageView::KeyPressed(key), fresh, typed).state.mode == s.mode,
        step(s, MessageView::KeyPressed(key), fresh, typed).state.quit == s.quit,
        step(s, MessageView::KeyPressed(key), fresh, typed).request is None,
{
}

/// Every message hides help, but for the help keys pressed while
/// navigating with no dialog up, which show it.
pub proof fn lemma_help_is_hidden_by_any_action(
    s: StateView,
    m: MessageView,
    fresh: u128,
    typed: Seq<Seq<char>>,
)
    ensures
        step(s, m, fresh, typed).state.show_help <==> (m matches MessageView::KeyPressed(key)
            && s.popup is None && s.mode == Mode::Navigate && (key.code == KeyCode::Char('?')
            || key.code == KeyCode::F(1))),
{
}

} // verus!
